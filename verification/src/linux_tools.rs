//! The Linux tools offered to the model: their names, descriptions,
//! input schemas and safety tiers, and their registration. Running them is
//! the application's part.
use vstd::prelude::*;

use crate::json::{str_field, Json, JsonNumber};
use crate::shell::{shell_run_tier_for_input, spec_is_dangerous, SafetyTier, TargetOs};
use crate::text::owned;
use crate::tools::{object_schema, schema_is, ToolRouter, ToolSpec};

verus! {

/// The `linux_network_info` tool.
#[derive(Debug, Clone, Copy)]
pub struct LinuxNetworkInfo;

impl LinuxNetworkInfo {
    /// What the registry holds for this tool: its name, description, tier
    /// and input schema.
    pub open spec fn describes(t: ToolSpec) -> bool {
        &&& t.name@ == "linux_network_info"@
        &&& t.description@ == "Get current network configuration including interfaces, DNS settings, and default route."@
        &&& t.tier == SafetyTier::ReadOnly
        &&& schema_is(t.input_schema, Seq::empty(), Seq::empty(), false)
    }

    pub fn spec(&self) -> (r: ToolSpec)
        ensures
            Self::describes(r),
    {
        ToolSpec {
            name: owned("linux_network_info"),
            description: owned("Get current network configuration including interfaces, DNS settings, and default route."),
            tier: SafetyTier::ReadOnly,
            input_schema: self.input_schema(),
        }
    }

    /// The tool's input: no properties.
    pub fn input_schema(&self) -> (r: Json)
        ensures
            schema_is(r, Seq::empty(), Seq::empty(), false),
    {
        let props: Vec<(String, Json)> = Vec::new();
        let required: Vec<String> = Vec::new();
        proof {
            assert(crate::tools::field_names(props@) =~= Seq::empty());
            assert(crate::playbook_runtime::views(required@) =~= Seq::empty());
        }
        object_schema(props, required, false)
    }
}

/// The `linux_ping` tool.
#[derive(Debug, Clone, Copy)]
pub struct LinuxPing;

impl LinuxPing {
    /// What the registry holds for this tool: its name, description, tier
    /// and input schema.
    pub open spec fn describes(t: ToolSpec) -> bool {
        &&& t.name@ == "linux_ping"@
        &&& t.description@ == "Ping a host to test network connectivity. Returns ping statistics."@
        &&& t.tier == SafetyTier::ReadOnly
        &&& schema_is(t.input_schema, seq!["count"@, "host"@], seq!["host"@], false)
    }

    pub fn spec(&self) -> (r: ToolSpec)
        ensures
            Self::describes(r),
    {
        ToolSpec {
            name: owned("linux_ping"),
            description: owned("Ping a host to test network connectivity. Returns ping statistics."),
            tier: SafetyTier::ReadOnly,
            input_schema: self.input_schema(),
        }
    }

    /// The tool's input: `count`, `host`; required: `host`.
    pub fn input_schema(&self) -> (r: Json)
        ensures
            schema_is(r, seq!["count"@, "host"@], seq!["host"@], false),
    {
        let props: Vec<(String, Json)> = vec![
            (owned("count"), Json::Object(vec![(owned("default"), Json::Number(JsonNumber::PosInt(4))), (owned("description"), Json::Str(owned("Number of pings to send (default 4)"))), (owned("type"), Json::Str(owned("integer")))])),
            (owned("host"), Json::Object(vec![(owned("description"), Json::Str(owned("Hostname or IP address to ping"))), (owned("type"), Json::Str(owned("string")))])),
        ];
        let required: Vec<String> = vec![owned("host")];
        proof {
            assert(crate::tools::field_names(props@) =~= seq!["count"@, "host"@]);
            assert(crate::playbook_runtime::views(required@) =~= seq!["host"@]);
        }
        object_schema(props, required, false)
    }
}

/// The `linux_dns_check` tool.
#[derive(Debug, Clone, Copy)]
pub struct LinuxDnsCheck;

impl LinuxDnsCheck {
    /// What the registry holds for this tool: its name, description, tier
    /// and input schema.
    pub open spec fn describes(t: ToolSpec) -> bool {
        &&& t.name@ == "linux_dns_check"@
        &&& t.description@ == "Perform DNS lookup for a domain. Resolves addresses and reports configured DNS servers."@
        &&& t.tier == SafetyTier::ReadOnly
        &&& schema_is(t.input_schema, seq!["domain"@], seq!["domain"@], false)
    }

    pub fn spec(&self) -> (r: ToolSpec)
        ensures
            Self::describes(r),
    {
        ToolSpec {
            name: owned("linux_dns_check"),
            description: owned("Perform DNS lookup for a domain. Resolves addresses and reports configured DNS servers."),
            tier: SafetyTier::ReadOnly,
            input_schema: self.input_schema(),
        }
    }

    /// The tool's input: `domain`; required: `domain`.
    pub fn input_schema(&self) -> (r: Json)
        ensures
            schema_is(r, seq!["domain"@], seq!["domain"@], false),
    {
        let props: Vec<(String, Json)> = vec![
            (owned("domain"), Json::Object(vec![(owned("description"), Json::Str(owned("Domain name to look up"))), (owned("type"), Json::Str(owned("string")))])),
        ];
        let required: Vec<String> = vec![owned("domain")];
        proof {
            assert(crate::tools::field_names(props@) =~= seq!["domain"@]);
            assert(crate::playbook_runtime::views(required@) =~= seq!["domain"@]);
        }
        object_schema(props, required, false)
    }
}

/// The `linux_http_check` tool.
#[derive(Debug, Clone, Copy)]
pub struct LinuxHttpCheck;

impl LinuxHttpCheck {
    /// What the registry holds for this tool: its name, description, tier
    /// and input schema.
    pub open spec fn describes(t: ToolSpec) -> bool {
        &&& t.name@ == "linux_http_check"@
        &&& t.description@ == "Test HTTP connectivity to a URL and report status code and timing."@
        &&& t.tier == SafetyTier::ReadOnly
        &&& schema_is(t.input_schema, seq!["url"@], seq!["url"@], false)
    }

    pub fn spec(&self) -> (r: ToolSpec)
        ensures
            Self::describes(r),
    {
        ToolSpec {
            name: owned("linux_http_check"),
            description: owned("Test HTTP connectivity to a URL and report status code and timing."),
            tier: SafetyTier::ReadOnly,
            input_schema: self.input_schema(),
        }
    }

    /// The tool's input: `url`; required: `url`.
    pub fn input_schema(&self) -> (r: Json)
        ensures
            schema_is(r, seq!["url"@], seq!["url"@], false),
    {
        let props: Vec<(String, Json)> = vec![
            (owned("url"), Json::Object(vec![(owned("description"), Json::Str(owned("URL to test (e.g. https://example.com)"))), (owned("type"), Json::Str(owned("string")))])),
        ];
        let required: Vec<String> = vec![owned("url")];
        proof {
            assert(crate::tools::field_names(props@) =~= seq!["url"@]);
            assert(crate::playbook_runtime::views(required@) =~= seq!["url"@]);
        }
        object_schema(props, required, false)
    }
}

/// The `linux_flush_dns` tool.
#[derive(Debug, Clone, Copy)]
pub struct LinuxFlushDns;

impl LinuxFlushDns {
    /// What the registry holds for this tool: its name, description, tier
    /// and input schema.
    pub open spec fn describes(t: ToolSpec) -> bool {
        &&& t.name@ == "linux_flush_dns"@
        &&& t.description@ == "Flush the DNS cache. Tries systemd-resolved first, then nscd."@
        &&& t.tier == SafetyTier::SafeAction
        &&& schema_is(t.input_schema, Seq::empty(), Seq::empty(), false)
    }

    pub fn spec(&self) -> (r: ToolSpec)
        ensures
            Self::describes(r),
    {
        ToolSpec {
            name: owned("linux_flush_dns"),
            description: owned("Flush the DNS cache. Tries systemd-resolved first, then nscd."),
            tier: SafetyTier::SafeAction,
            input_schema: self.input_schema(),
        }
    }

    /// The tool's input: no properties.
    pub fn input_schema(&self) -> (r: Json)
        ensures
            schema_is(r, Seq::empty(), Seq::empty(), false),
    {
        let props: Vec<(String, Json)> = Vec::new();
        let required: Vec<String> = Vec::new();
        proof {
            assert(crate::tools::field_names(props@) =~= Seq::empty());
            assert(crate::playbook_runtime::views(required@) =~= Seq::empty());
        }
        object_schema(props, required, false)
    }
}

/// The `linux_system_info` tool.
#[derive(Debug, Clone, Copy)]
pub struct LinuxSystemInfo;

impl LinuxSystemInfo {
    /// What the registry holds for this tool: its name, description, tier
    /// and input schema.
    pub open spec fn describes(t: ToolSpec) -> bool {
        &&& t.name@ == "linux_system_info"@
        &&& t.description@ == "Get Linux distribution, kernel version, CPU model, core count, memory, and uptime."@
        &&& t.tier == SafetyTier::ReadOnly
        &&& schema_is(t.input_schema, Seq::empty(), Seq::empty(), false)
    }

    pub fn spec(&self) -> (r: ToolSpec)
        ensures
            Self::describes(r),
    {
        ToolSpec {
            name: owned("linux_system_info"),
            description: owned("Get Linux distribution, kernel version, CPU model, core count, memory, and uptime."),
            tier: SafetyTier::ReadOnly,
            input_schema: self.input_schema(),
        }
    }

    /// The tool's input: no properties.
    pub fn input_schema(&self) -> (r: Json)
        ensures
            schema_is(r, Seq::empty(), Seq::empty(), false),
    {
        let props: Vec<(String, Json)> = Vec::new();
        let required: Vec<String> = Vec::new();
        proof {
            assert(crate::tools::field_names(props@) =~= Seq::empty());
            assert(crate::playbook_runtime::views(required@) =~= Seq::empty());
        }
        object_schema(props, required, false)
    }
}

/// The `linux_process_list` tool.
#[derive(Debug, Clone, Copy)]
pub struct LinuxProcessList;

impl LinuxProcessList {
    /// What the registry holds for this tool: its name, description, tier
    /// and input schema.
    pub open spec fn describes(t: ToolSpec) -> bool {
        &&& t.name@ == "linux_process_list"@
        &&& t.description@ == "List running processes sorted by CPU or memory usage."@
        &&& t.tier == SafetyTier::ReadOnly
        &&& schema_is(t.input_schema, seq!["sort_by"@], Seq::empty(), false)
    }

    pub fn spec(&self) -> (r: ToolSpec)
        ensures
            Self::describes(r),
    {
        ToolSpec {
            name: owned("linux_process_list"),
            description: owned("List running processes sorted by CPU or memory usage."),
            tier: SafetyTier::ReadOnly,
            input_schema: self.input_schema(),
        }
    }

    /// The tool's input: `sort_by`.
    pub fn input_schema(&self) -> (r: Json)
        ensures
            schema_is(r, seq!["sort_by"@], Seq::empty(), false),
    {
        let props: Vec<(String, Json)> = vec![
            (owned("sort_by"), Json::Object(vec![(owned("default"), Json::Str(owned("cpu"))), (owned("description"), Json::Str(owned("Sort by 'cpu' or 'mem' (default: cpu)"))), (owned("enum"), Json::Array(vec![Json::Str(owned("cpu")), Json::Str(owned("mem"))])), (owned("type"), Json::Str(owned("string")))])),
        ];
        let required: Vec<String> = Vec::new();
        proof {
            assert(crate::tools::field_names(props@) =~= seq!["sort_by"@]);
            assert(crate::playbook_runtime::views(required@) =~= Seq::empty());
        }
        object_schema(props, required, false)
    }
}

/// The `linux_disk_usage` tool.
#[derive(Debug, Clone, Copy)]
pub struct LinuxDiskUsage;

impl LinuxDiskUsage {
    /// What the registry holds for this tool: its name, description, tier
    /// and input schema.
    pub open spec fn describes(t: ToolSpec) -> bool {
        &&& t.name@ == "linux_disk_usage"@
        &&& t.description@ == "Show disk usage for all mounted filesystems."@
        &&& t.tier == SafetyTier::ReadOnly
        &&& schema_is(t.input_schema, Seq::empty(), Seq::empty(), false)
    }

    pub fn spec(&self) -> (r: ToolSpec)
        ensures
            Self::describes(r),
    {
        ToolSpec {
            name: owned("linux_disk_usage"),
            description: owned("Show disk usage for all mounted filesystems."),
            tier: SafetyTier::ReadOnly,
            input_schema: self.input_schema(),
        }
    }

    /// The tool's input: no properties.
    pub fn input_schema(&self) -> (r: Json)
        ensures
            schema_is(r, Seq::empty(), Seq::empty(), false),
    {
        let props: Vec<(String, Json)> = Vec::new();
        let required: Vec<String> = Vec::new();
        proof {
            assert(crate::tools::field_names(props@) =~= Seq::empty());
            assert(crate::playbook_runtime::views(required@) =~= Seq::empty());
        }
        object_schema(props, required, false)
    }
}

/// The `linux_kill_process` tool.
#[derive(Debug, Clone, Copy)]
pub struct LinuxKillProcess;

impl LinuxKillProcess {
    /// What the registry holds for this tool: its name, description, tier
    /// and input schema.
    pub open spec fn describes(t: ToolSpec) -> bool {
        &&& t.name@ == "linux_kill_process"@
        &&& t.description@ == "Kill a process by PID. Use signal 15 (SIGTERM) for graceful or 9 (SIGKILL) for force kill."@
        &&& t.tier == SafetyTier::SafeAction
        &&& schema_is(t.input_schema, seq!["pid"@, "signal"@], seq!["pid"@], false)
    }

    pub fn spec(&self) -> (r: ToolSpec)
        ensures
            Self::describes(r),
    {
        ToolSpec {
            name: owned("linux_kill_process"),
            description: owned("Kill a process by PID. Use signal 15 (SIGTERM) for graceful or 9 (SIGKILL) for force kill."),
            tier: SafetyTier::SafeAction,
            input_schema: self.input_schema(),
        }
    }

    /// The tool's input: `pid`, `signal`; required: `pid`.
    pub fn input_schema(&self) -> (r: Json)
        ensures
            schema_is(r, seq!["pid"@, "signal"@], seq!["pid"@], false),
    {
        let props: Vec<(String, Json)> = vec![
            (owned("pid"), Json::Object(vec![(owned("description"), Json::Str(owned("Process ID to kill"))), (owned("type"), Json::Str(owned("integer")))])),
            (owned("signal"), Json::Object(vec![(owned("default"), Json::Number(JsonNumber::PosInt(15))), (owned("description"), Json::Str(owned("Signal number: 15 for SIGTERM (graceful), 9 for SIGKILL (force). Default: 15"))), (owned("type"), Json::Str(owned("integer")))])),
        ];
        let required: Vec<String> = vec![owned("pid")];
        proof {
            assert(crate::tools::field_names(props@) =~= seq!["pid"@, "signal"@]);
            assert(crate::playbook_runtime::views(required@) =~= seq!["pid"@]);
        }
        object_schema(props, required, false)
    }
}

/// The `linux_app_list` tool.
#[derive(Debug, Clone, Copy)]
pub struct LinuxAppList;

impl LinuxAppList {
    /// What the registry holds for this tool: its name, description, tier
    /// and input schema.
    pub open spec fn describes(t: ToolSpec) -> bool {
        &&& t.name@ == "linux_app_list"@
        &&& t.description@ == "List installed packages. Tries dpkg (Debian/Ubuntu), rpm (Fedora/RHEL), and flatpak."@
        &&& t.tier == SafetyTier::ReadOnly
        &&& schema_is(t.input_schema, Seq::empty(), Seq::empty(), true)
    }

    pub fn spec(&self) -> (r: ToolSpec)
        ensures
            Self::describes(r),
    {
        ToolSpec {
            name: owned("linux_app_list"),
            description: owned("List installed packages. Tries dpkg (Debian/Ubuntu), rpm (Fedora/RHEL), and flatpak."),
            tier: SafetyTier::ReadOnly,
            input_schema: self.input_schema(),
        }
    }

    /// The tool's input: no properties.
    pub fn input_schema(&self) -> (r: Json)
        ensures
            schema_is(r, Seq::empty(), Seq::empty(), true),
    {
        let props: Vec<(String, Json)> = Vec::new();
        let required: Vec<String> = Vec::new();
        proof {
            assert(crate::tools::field_names(props@) =~= Seq::empty());
            assert(crate::playbook_runtime::views(required@) =~= Seq::empty());
        }
        object_schema(props, required, true)
    }
}

/// The `linux_app_data_ls` tool.
#[derive(Debug, Clone, Copy)]
pub struct LinuxAppDataLs;

impl LinuxAppDataLs {
    /// What the registry holds for this tool: its name, description, tier
    /// and input schema.
    pub open spec fn describes(t: ToolSpec) -> bool {
        &&& t.name@ == "linux_app_data_ls"@
        &&& t.description@ == "List contents of an application's data/config directory (~/.config/{app} or ~/.local/share/{app})."@
        &&& t.tier == SafetyTier::ReadOnly
        &&& schema_is(t.input_schema, seq!["app_name"@], seq!["app_name"@], true)
    }

    pub fn spec(&self) -> (r: ToolSpec)
        ensures
            Self::describes(r),
    {
        ToolSpec {
            name: owned("linux_app_data_ls"),
            description: owned("List contents of an application's data/config directory (~/.config/{app} or ~/.local/share/{app})."),
            tier: SafetyTier::ReadOnly,
            input_schema: self.input_schema(),
        }
    }

    /// The tool's input: `app_name`; required: `app_name`.
    pub fn input_schema(&self) -> (r: Json)
        ensures
            schema_is(r, seq!["app_name"@], seq!["app_name"@], true),
    {
        let props: Vec<(String, Json)> = vec![
            (owned("app_name"), Json::Object(vec![(owned("description"), Json::Str(owned("Application name (subdirectory name under ~/.config or ~/.local/share)"))), (owned("type"), Json::Str(owned("string")))])),
        ];
        let required: Vec<String> = vec![owned("app_name")];
        proof {
            assert(crate::tools::field_names(props@) =~= seq!["app_name"@]);
            assert(crate::playbook_runtime::views(required@) =~= seq!["app_name"@]);
        }
        object_schema(props, required, true)
    }
}

/// The `linux_clear_app_cache` tool.
#[derive(Debug, Clone, Copy)]
pub struct LinuxClearAppCache;

impl LinuxClearAppCache {
    /// What the registry holds for this tool: its name, description, tier
    /// and input schema.
    pub open spec fn describes(t: ToolSpec) -> bool {
        &&& t.name@ == "linux_clear_app_cache"@
        &&& t.description@ == "Clear cache files for a specific application from ~/.cache/{app_name}/."@
        &&& t.tier == SafetyTier::SafeAction
        &&& schema_is(t.input_schema, seq!["app_name"@], seq!["app_name"@], true)
    }

    pub fn spec(&self) -> (r: ToolSpec)
        ensures
            Self::describes(r),
    {
        ToolSpec {
            name: owned("linux_clear_app_cache"),
            description: owned("Clear cache files for a specific application from ~/.cache/{app_name}/."),
            tier: SafetyTier::SafeAction,
            input_schema: self.input_schema(),
        }
    }

    /// The tool's input: `app_name`; required: `app_name`.
    pub fn input_schema(&self) -> (r: Json)
        ensures
            schema_is(r, seq!["app_name"@], seq!["app_name"@], true),
    {
        let props: Vec<(String, Json)> = vec![
            (owned("app_name"), Json::Object(vec![(owned("description"), Json::Str(owned("Application name (subdirectory of ~/.cache)"))), (owned("type"), Json::Str(owned("string")))])),
        ];
        let required: Vec<String> = vec![owned("app_name")];
        proof {
            assert(crate::tools::field_names(props@) =~= seq!["app_name"@]);
            assert(crate::playbook_runtime::views(required@) =~= seq!["app_name"@]);
        }
        object_schema(props, required, true)
    }
}

/// The `linux_printer_list` tool.
#[derive(Debug, Clone, Copy)]
pub struct LinuxPrinterList;

impl LinuxPrinterList {
    /// What the registry holds for this tool: its name, description, tier
    /// and input schema.
    pub open spec fn describes(t: ToolSpec) -> bool {
        &&& t.name@ == "linux_printer_list"@
        &&& t.description@ == "List configured printers and the default printer using CUPS (lpstat)."@
        &&& t.tier == SafetyTier::ReadOnly
        &&& schema_is(t.input_schema, Seq::empty(), Seq::empty(), true)
    }

    pub fn spec(&self) -> (r: ToolSpec)
        ensures
            Self::describes(r),
    {
        ToolSpec {
            name: owned("linux_printer_list"),
            description: owned("List configured printers and the default printer using CUPS (lpstat)."),
            tier: SafetyTier::ReadOnly,
            input_schema: self.input_schema(),
        }
    }

    /// The tool's input: no properties.
    pub fn input_schema(&self) -> (r: Json)
        ensures
            schema_is(r, Seq::empty(), Seq::empty(), true),
    {
        let props: Vec<(String, Json)> = Vec::new();
        let required: Vec<String> = Vec::new();
        proof {
            assert(crate::tools::field_names(props@) =~= Seq::empty());
            assert(crate::playbook_runtime::views(required@) =~= Seq::empty());
        }
        object_schema(props, required, true)
    }
}

/// The `linux_print_queue` tool.
#[derive(Debug, Clone, Copy)]
pub struct LinuxPrintQueue;

impl LinuxPrintQueue {
    /// What the registry holds for this tool: its name, description, tier
    /// and input schema.
    pub open spec fn describes(t: ToolSpec) -> bool {
        &&& t.name@ == "linux_print_queue"@
        &&& t.description@ == "Show the current print queue (pending print jobs)."@
        &&& t.tier == SafetyTier::ReadOnly
        &&& schema_is(t.input_schema, Seq::empty(), Seq::empty(), true)
    }

    pub fn spec(&self) -> (r: ToolSpec)
        ensures
            Self::describes(r),
    {
        ToolSpec {
            name: owned("linux_print_queue"),
            description: owned("Show the current print queue (pending print jobs)."),
            tier: SafetyTier::ReadOnly,
            input_schema: self.input_schema(),
        }
    }

    /// The tool's input: no properties.
    pub fn input_schema(&self) -> (r: Json)
        ensures
            schema_is(r, Seq::empty(), Seq::empty(), true),
    {
        let props: Vec<(String, Json)> = Vec::new();
        let required: Vec<String> = Vec::new();
        proof {
            assert(crate::tools::field_names(props@) =~= Seq::empty());
            assert(crate::playbook_runtime::views(required@) =~= Seq::empty());
        }
        object_schema(props, required, true)
    }
}

/// The `linux_cancel_print_jobs` tool.
#[derive(Debug, Clone, Copy)]
pub struct LinuxCancelPrintJobs;

impl LinuxCancelPrintJobs {
    /// What the registry holds for this tool: its name, description, tier
    /// and input schema.
    pub open spec fn describes(t: ToolSpec) -> bool {
        &&& t.name@ == "linux_cancel_print_jobs"@
        &&& t.description@ == "Cancel all pending print jobs."@
        &&& t.tier == SafetyTier::SafeAction
        &&& schema_is(t.input_schema, Seq::empty(), Seq::empty(), true)
    }

    pub fn spec(&self) -> (r: ToolSpec)
        ensures
            Self::describes(r),
    {
        ToolSpec {
            name: owned("linux_cancel_print_jobs"),
            description: owned("Cancel all pending print jobs."),
            tier: SafetyTier::SafeAction,
            input_schema: self.input_schema(),
        }
    }

    /// The tool's input: no properties.
    pub fn input_schema(&self) -> (r: Json)
        ensures
            schema_is(r, Seq::empty(), Seq::empty(), true),
    {
        let props: Vec<(String, Json)> = Vec::new();
        let required: Vec<String> = Vec::new();
        proof {
            assert(crate::tools::field_names(props@) =~= Seq::empty());
            assert(crate::playbook_runtime::views(required@) =~= Seq::empty());
        }
        object_schema(props, required, true)
    }
}

/// The `linux_restart_cups` tool.
#[derive(Debug, Clone, Copy)]
pub struct LinuxRestartCups;

impl LinuxRestartCups {
    /// What the registry holds for this tool: its name, description, tier
    /// and input schema.
    pub open spec fn describes(t: ToolSpec) -> bool {
        &&& t.name@ == "linux_restart_cups"@
        &&& t.description@ == "Restart the CUPS print service using systemctl."@
        &&& t.tier == SafetyTier::SafeAction
        &&& schema_is(t.input_schema, Seq::empty(), Seq::empty(), true)
    }

    pub fn spec(&self) -> (r: ToolSpec)
        ensures
            Self::describes(r),
    {
        ToolSpec {
            name: owned("linux_restart_cups"),
            description: owned("Restart the CUPS print service using systemctl."),
            tier: SafetyTier::SafeAction,
            input_schema: self.input_schema(),
        }
    }

    /// The tool's input: no properties.
    pub fn input_schema(&self) -> (r: Json)
        ensures
            schema_is(r, Seq::empty(), Seq::empty(), true),
    {
        let props: Vec<(String, Json)> = Vec::new();
        let required: Vec<String> = Vec::new();
        proof {
            assert(crate::tools::field_names(props@) =~= Seq::empty());
            assert(crate::playbook_runtime::views(required@) =~= Seq::empty());
        }
        object_schema(props, required, true)
    }
}

/// The `linux_system_summary` tool.
#[derive(Debug, Clone, Copy)]
pub struct LinuxSystemSummary;

impl LinuxSystemSummary {
    /// What the registry holds for this tool: its name, description, tier
    /// and input schema.
    pub open spec fn describes(t: ToolSpec) -> bool {
        &&& t.name@ == "linux_system_summary"@
        &&& t.description@ == "One-shot system summary: distro, kernel, hardware, disk space, network status, and uptime."@
        &&& t.tier == SafetyTier::ReadOnly
        &&& schema_is(t.input_schema, Seq::empty(), Seq::empty(), true)
    }

    pub fn spec(&self) -> (r: ToolSpec)
        ensures
            Self::describes(r),
    {
        ToolSpec {
            name: owned("linux_system_summary"),
            description: owned("One-shot system summary: distro, kernel, hardware, disk space, network status, and uptime."),
            tier: SafetyTier::ReadOnly,
            input_schema: self.input_schema(),
        }
    }

    /// The tool's input: no properties.
    pub fn input_schema(&self) -> (r: Json)
        ensures
            schema_is(r, Seq::empty(), Seq::empty(), true),
    {
        let props: Vec<(String, Json)> = Vec::new();
        let required: Vec<String> = Vec::new();
        proof {
            assert(crate::tools::field_names(props@) =~= Seq::empty());
            assert(crate::playbook_runtime::views(required@) =~= Seq::empty());
        }
        object_schema(props, required, true)
    }
}

/// The `linux_read_file` tool.
#[derive(Debug, Clone, Copy)]
pub struct LinuxReadFile;

impl LinuxReadFile {
    /// What the registry holds for this tool: its name, description, tier
    /// and input schema.
    pub open spec fn describes(t: ToolSpec) -> bool {
        &&& t.name@ == "linux_read_file"@
        &&& t.description@ == "Read the contents of a file. The path must be under a user-accessible location (/home/*, /var/log/*, /etc/*, /tmp/*, /opt/*, etc.). System-protected paths are rejected. Output is truncated at 500 lines."@
        &&& t.tier == SafetyTier::ReadOnly
        &&& schema_is(t.input_schema, seq!["path"@], seq!["path"@], true)
    }

    pub fn spec(&self) -> (r: ToolSpec)
        ensures
            Self::describes(r),
    {
        ToolSpec {
            name: owned("linux_read_file"),
            description: owned("Read the contents of a file. The path must be under a user-accessible location (/home/*, /var/log/*, /etc/*, /tmp/*, /opt/*, etc.). System-protected paths are rejected. Output is truncated at 500 lines."),
            tier: SafetyTier::ReadOnly,
            input_schema: self.input_schema(),
        }
    }

    /// The tool's input: `path`; required: `path`.
    pub fn input_schema(&self) -> (r: Json)
        ensures
            schema_is(r, seq!["path"@], seq!["path"@], true),
    {
        let props: Vec<(String, Json)> = vec![
            (owned("path"), Json::Object(vec![(owned("description"), Json::Str(owned("Absolute path to the file to read"))), (owned("type"), Json::Str(owned("string")))])),
        ];
        let required: Vec<String> = vec![owned("path")];
        proof {
            assert(crate::tools::field_names(props@) =~= seq!["path"@]);
            assert(crate::playbook_runtime::views(required@) =~= seq!["path"@]);
        }
        object_schema(props, required, true)
    }
}

/// The `linux_read_log` tool.
#[derive(Debug, Clone, Copy)]
pub struct LinuxReadLog;

impl LinuxReadLog {
    /// What the registry holds for this tool: its name, description, tier
    /// and input schema.
    pub open spec fn describes(t: ToolSpec) -> bool {
        &&& t.name@ == "linux_read_log"@
        &&& t.description@ == "Read system logs using journalctl. Supports filtering by unit, priority, and time. Output is limited to the last 200 entries."@
        &&& t.tier == SafetyTier::ReadOnly
        &&& schema_is(t.input_schema, seq!["priority"@, "since"@, "unit"@], Seq::empty(), true)
    }

    pub fn spec(&self) -> (r: ToolSpec)
        ensures
            Self::describes(r),
    {
        ToolSpec {
            name: owned("linux_read_log"),
            description: owned("Read system logs using journalctl. Supports filtering by unit, priority, and time. Output is limited to the last 200 entries."),
            tier: SafetyTier::ReadOnly,
            input_schema: self.input_schema(),
        }
    }

    /// The tool's input: `priority`, `since`, `unit`.
    pub fn input_schema(&self) -> (r: Json)
        ensures
            schema_is(r, seq!["priority"@, "since"@, "unit"@], Seq::empty(), true),
    {
        let props: Vec<(String, Json)> = vec![
            (owned("priority"), Json::Object(vec![(owned("default"), Json::Str(owned("warning"))), (owned("description"), Json::Str(owned("Minimum priority: emerg, alert, crit, err, warning, notice, info, debug. Default: warning"))), (owned("type"), Json::Str(owned("string")))])),
            (owned("since"), Json::Object(vec![(owned("default"), Json::Str(owned("1h ago"))), (owned("description"), Json::Str(owned("How far back to look, e.g. '1h ago', '30min ago', 'today'. Default: '1h ago'"))), (owned("type"), Json::Str(owned("string")))])),
            (owned("unit"), Json::Object(vec![(owned("description"), Json::Str(owned("Systemd unit to filter by (e.g. 'cups', 'NetworkManager', 'sshd')"))), (owned("type"), Json::Str(owned("string")))])),
        ];
        let required: Vec<String> = Vec::new();
        proof {
            assert(crate::tools::field_names(props@) =~= seq!["priority"@, "since"@, "unit"@]);
            assert(crate::playbook_runtime::views(required@) =~= Seq::empty());
        }
        object_schema(props, required, true)
    }
}

/// The `shell_run` tool.
#[derive(Debug, Clone, Copy)]
pub struct ShellRun;

impl ShellRun {
    /// What the registry holds for this tool: its name, description, tier
    /// and input schema.
    pub open spec fn describes(t: ToolSpec) -> bool {
        &&& t.name@ == "shell_run"@
        &&& t.description@ == "Execute a shell command via /bin/bash -c. Auto-approved for safe commands; dangerous commands (rm, sudo, dd, etc.) require user approval. Output is truncated at 10 000 chars; commands time out after 60 s."@
        &&& t.tier == SafetyTier::SafeAction
        &&& schema_is(t.input_schema, seq!["command"@, "reason"@], seq!["command"@, "reason"@], true)
    }

    pub fn spec(&self) -> (r: ToolSpec)
        ensures
            Self::describes(r),
    {
        ToolSpec {
            name: owned("shell_run"),
            description: owned("Execute a shell command via /bin/bash -c. Auto-approved for safe commands; dangerous commands (rm, sudo, dd, etc.) require user approval. Output is truncated at 10 000 chars; commands time out after 60 s."),
            tier: SafetyTier::SafeAction,
            input_schema: self.input_schema(),
        }
    }

    /// The tool's input: `command`, `reason`; required: `command`, `reason`.
    pub fn input_schema(&self) -> (r: Json)
        ensures
            schema_is(r, seq!["command"@, "reason"@], seq!["command"@, "reason"@], true),
    {
        let props: Vec<(String, Json)> = vec![
            (owned("command"), Json::Object(vec![(owned("description"), Json::Str(owned("The shell command to execute"))), (owned("type"), Json::Str(owned("string")))])),
            (owned("reason"), Json::Object(vec![(owned("description"), Json::Str(owned("Plain-language explanation of what this command does and why, written for a non-technical user. Example: 'Delete old log files to free up disk space'"))), (owned("type"), Json::Str(owned("string")))])),
        ];
        let required: Vec<String> = vec![owned("command"), owned("reason")];
        proof {
            assert(crate::tools::field_names(props@) =~= seq!["command"@, "reason"@]);
            assert(crate::playbook_runtime::views(required@) =~= seq!["command"@, "reason"@]);
        }
        object_schema(props, required, true)
    }

    /// A call needs approval when its command is dangerous; else it is a safe action.
    pub fn safety_tier_for_input(&self, input: &Json) -> (t: SafetyTier)
        ensures
            t == (match str_field(*input, "command"@) {
                Some(c) => if spec_is_dangerous(c, TargetOs::Linux) {
                    SafetyTier::NeedsApproval
                } else {
                    SafetyTier::SafeAction
                },
                None => SafetyTier::SafeAction,
            }),
    {
        shell_run_tier_for_input(input.str_field("command"), TargetOs::Linux)
    }
}

/// The names of the tools, in registration order.
pub open spec fn tool_names() -> Seq<Seq<char>> {
    seq![
        "linux_network_info"@,
        "linux_ping"@,
        "linux_dns_check"@,
        "linux_http_check"@,
        "linux_flush_dns"@,
        "linux_system_info"@,
        "linux_process_list"@,
        "linux_disk_usage"@,
        "linux_kill_process"@,
        "linux_app_list"@,
        "linux_app_data_ls"@,
        "linux_clear_app_cache"@,
        "linux_printer_list"@,
        "linux_print_queue"@,
        "linux_cancel_print_jobs"@,
        "linux_restart_cups"@,
        "linux_system_summary"@,
        "linux_read_file"@,
        "linux_read_log"@,
        "shell_run"@,
    ]
}

/// Register the tools, in the order of `tool_names`.
pub fn register_tools(router: &mut ToolRouter)
    ensures
        final(router).tools@.len() == old(router).tools@.len() + tool_names().len(),
        final(router).tools@.subrange(0, old(router).tools@.len() as int) == old(router).tools@,
        forall|i: int|
            0 <= i < tool_names().len() ==> (#[trigger] final(router).tools@[old(router).tools@.len()
                + i]).name@ == tool_names()[i],
        LinuxNetworkInfo::describes(final(router).tools@[old(router).tools@.len() + 0int]),
        LinuxPing::describes(final(router).tools@[old(router).tools@.len() + 1int]),
        LinuxDnsCheck::describes(final(router).tools@[old(router).tools@.len() + 2int]),
        LinuxHttpCheck::describes(final(router).tools@[old(router).tools@.len() + 3int]),
        LinuxFlushDns::describes(final(router).tools@[old(router).tools@.len() + 4int]),
        LinuxSystemInfo::describes(final(router).tools@[old(router).tools@.len() + 5int]),
        LinuxProcessList::describes(final(router).tools@[old(router).tools@.len() + 6int]),
        LinuxDiskUsage::describes(final(router).tools@[old(router).tools@.len() + 7int]),
        LinuxKillProcess::describes(final(router).tools@[old(router).tools@.len() + 8int]),
        LinuxAppList::describes(final(router).tools@[old(router).tools@.len() + 9int]),
        LinuxAppDataLs::describes(final(router).tools@[old(router).tools@.len() + 10int]),
        LinuxClearAppCache::describes(final(router).tools@[old(router).tools@.len() + 11int]),
        LinuxPrinterList::describes(final(router).tools@[old(router).tools@.len() + 12int]),
        LinuxPrintQueue::describes(final(router).tools@[old(router).tools@.len() + 13int]),
        LinuxCancelPrintJobs::describes(final(router).tools@[old(router).tools@.len() + 14int]),
        LinuxRestartCups::describes(final(router).tools@[old(router).tools@.len() + 15int]),
        LinuxSystemSummary::describes(final(router).tools@[old(router).tools@.len() + 16int]),
        LinuxReadFile::describes(final(router).tools@[old(router).tools@.len() + 17int]),
        LinuxReadLog::describes(final(router).tools@[old(router).tools@.len() + 18int]),
        ShellRun::describes(final(router).tools@[old(router).tools@.len() + 19int]),
{
    let ghost start = router.tools@;
    router.register(LinuxNetworkInfo.spec());
    router.register(LinuxPing.spec());
    router.register(LinuxDnsCheck.spec());
    router.register(LinuxHttpCheck.spec());
    router.register(LinuxFlushDns.spec());
    router.register(LinuxSystemInfo.spec());
    router.register(LinuxProcessList.spec());
    router.register(LinuxDiskUsage.spec());
    router.register(LinuxKillProcess.spec());
    router.register(LinuxAppList.spec());
    router.register(LinuxAppDataLs.spec());
    router.register(LinuxClearAppCache.spec());
    router.register(LinuxPrinterList.spec());
    router.register(LinuxPrintQueue.spec());
    router.register(LinuxCancelPrintJobs.spec());
    router.register(LinuxRestartCups.spec());
    router.register(LinuxSystemSummary.spec());
    router.register(LinuxReadFile.spec());
    router.register(LinuxReadLog.spec());
    router.register(ShellRun.spec());
    proof {
        let n = start.len() as int;
        assert(router.tools@.subrange(0, n) =~= start);
        assert(router.tools@[n + 0].name@ == tool_names()[0]);
        assert(LinuxNetworkInfo::describes(router.tools@[n + 0]));
        assert(router.tools@[n + 1].name@ == tool_names()[1]);
        assert(LinuxPing::describes(router.tools@[n + 1]));
        assert(router.tools@[n + 2].name@ == tool_names()[2]);
        assert(LinuxDnsCheck::describes(router.tools@[n + 2]));
        assert(router.tools@[n + 3].name@ == tool_names()[3]);
        assert(LinuxHttpCheck::describes(router.tools@[n + 3]));
        assert(router.tools@[n + 4].name@ == tool_names()[4]);
        assert(LinuxFlushDns::describes(router.tools@[n + 4]));
        assert(router.tools@[n + 5].name@ == tool_names()[5]);
        assert(LinuxSystemInfo::describes(router.tools@[n + 5]));
        assert(router.tools@[n + 6].name@ == tool_names()[6]);
        assert(LinuxProcessList::describes(router.tools@[n + 6]));
        assert(router.tools@[n + 7].name@ == tool_names()[7]);
        assert(LinuxDiskUsage::describes(router.tools@[n + 7]));
        assert(router.tools@[n + 8].name@ == tool_names()[8]);
        assert(LinuxKillProcess::describes(router.tools@[n + 8]));
        assert(router.tools@[n + 9].name@ == tool_names()[9]);
        assert(LinuxAppList::describes(router.tools@[n + 9]));
        assert(router.tools@[n + 10].name@ == tool_names()[10]);
        assert(LinuxAppDataLs::describes(router.tools@[n + 10]));
        assert(router.tools@[n + 11].name@ == tool_names()[11]);
        assert(LinuxClearAppCache::describes(router.tools@[n + 11]));
        assert(router.tools@[n + 12].name@ == tool_names()[12]);
        assert(LinuxPrinterList::describes(router.tools@[n + 12]));
        assert(router.tools@[n + 13].name@ == tool_names()[13]);
        assert(LinuxPrintQueue::describes(router.tools@[n + 13]));
        assert(router.tools@[n + 14].name@ == tool_names()[14]);
        assert(LinuxCancelPrintJobs::describes(router.tools@[n + 14]));
        assert(router.tools@[n + 15].name@ == tool_names()[15]);
        assert(LinuxRestartCups::describes(router.tools@[n + 15]));
        assert(router.tools@[n + 16].name@ == tool_names()[16]);
        assert(LinuxSystemSummary::describes(router.tools@[n + 16]));
        assert(router.tools@[n + 17].name@ == tool_names()[17]);
        assert(LinuxReadFile::describes(router.tools@[n + 17]));
        assert(router.tools@[n + 18].name@ == tool_names()[18]);
        assert(LinuxReadLog::describes(router.tools@[n + 18]));
        assert(router.tools@[n + 19].name@ == tool_names()[19]);
        assert(ShellRun::describes(router.tools@[n + 19]));
    }
}

} // verus!
