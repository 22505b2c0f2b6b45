use openfang_runtime::tool_compat::{is_known_openfang_tool, map_tool_name, normalize_tool_name};

#[test]
fn test_map_tool_name_all_mappings() {
    // Capitalized names
    assert_eq!(map_tool_name("Read"), Some("file_read"));
    assert_eq!(map_tool_name("Write"), Some("file_write"));
    assert_eq!(map_tool_name("Edit"), Some("file_write"));
    assert_eq!(map_tool_name("Glob"), Some("file_search"));
    assert_eq!(map_tool_name("Grep"), Some("grep_search"));
    assert_eq!(map_tool_name("CodeSymbolRefs"), Some("code_symbol_refs"));
    assert_eq!(map_tool_name("EnterPlanMode"), Some("enter_plan_mode"));
    assert_eq!(map_tool_name("ExitPlanMode"), Some("exit_plan_mode"));
    assert_eq!(map_tool_name("TodoWrite"), Some("todo_write"));
    assert_eq!(map_tool_name("Bash"), Some("shell_exec"));
    assert_eq!(map_tool_name("WebSearch"), Some("web_search"));
    assert_eq!(map_tool_name("WebFetch"), Some("web_fetch"));

    // Lowercase variants
    assert_eq!(map_tool_name("read"), Some("file_read"));
    assert_eq!(map_tool_name("write"), Some("file_write"));
    assert_eq!(map_tool_name("edit"), Some("file_write"));
    assert_eq!(map_tool_name("glob"), Some("file_search"));
    assert_eq!(map_tool_name("grep"), Some("grep_search"));
    assert_eq!(map_tool_name("symbol_refs"), Some("code_symbol_refs"));
    assert_eq!(map_tool_name("bash"), Some("shell_exec"));
    assert_eq!(map_tool_name("exec"), Some("shell_exec"));
    assert_eq!(map_tool_name("execute_command"), Some("shell_exec"));

    // Other aliases
    assert_eq!(map_tool_name("read_file"), Some("file_read"));
    assert_eq!(map_tool_name("write_file"), Some("file_write"));
    assert_eq!(map_tool_name("list_files"), Some("file_list"));
    assert_eq!(map_tool_name("file_search"), Some("file_search"));
    assert_eq!(map_tool_name("grep_search"), Some("grep_search"));
    assert_eq!(map_tool_name("code_symbol_refs"), Some("code_symbol_refs"));
    assert_eq!(map_tool_name("enter_plan_mode"), Some("enter_plan_mode"));
    assert_eq!(map_tool_name("exit_plan_mode"), Some("exit_plan_mode"));
    assert_eq!(map_tool_name("todo_write"), Some("todo_write"));
    assert_eq!(map_tool_name("fetch_url"), Some("web_fetch"));
    assert_eq!(map_tool_name("web_fetch"), Some("web_fetch"));
    assert_eq!(map_tool_name("web_search"), Some("web_search"));
    assert_eq!(map_tool_name("browser_navigate"), Some("browser_navigate"));
    assert_eq!(map_tool_name("memory_search"), Some("memory_recall"));
    assert_eq!(map_tool_name("memory_recall"), Some("memory_recall"));
    assert_eq!(map_tool_name("memory_save"), Some("memory_store"));
    assert_eq!(map_tool_name("memory_store"), Some("memory_store"));
    assert_eq!(map_tool_name("memory_compact"), Some("memory_compact"));
    assert_eq!(map_tool_name("mcp_resource_list"), Some("mcp_resource_list"));
    assert_eq!(map_tool_name("mcp_resource_read"), Some("mcp_resource_read"));
    assert_eq!(map_tool_name("mcp_diagnostics"), Some("mcp_diagnostics"));
    assert_eq!(map_tool_name("sessions_send"), Some("agent_send"));
    assert_eq!(map_tool_name("agent_message"), Some("agent_send"));
    assert_eq!(map_tool_name("sessions_list"), Some("agent_list"));
    assert_eq!(map_tool_name("agents_list"), Some("agent_list"));
    assert_eq!(map_tool_name("agent_list"), Some("agent_list"));
    assert_eq!(map_tool_name("sessions_spawn"), Some("agent_send"));
    assert_eq!(map_tool_name("task_create"), Some("task_create"));
    assert_eq!(map_tool_name("task_get"), Some("task_get"));
    assert_eq!(map_tool_name("task_update"), Some("task_update"));
    assert_eq!(map_tool_name("task_output"), Some("task_output"));
    assert_eq!(map_tool_name("task_stop"), Some("task_stop"));

    // fs-* style aliases
    assert_eq!(map_tool_name("fs-read"), Some("file_read"));
    assert_eq!(map_tool_name("fs_read"), Some("file_read"));
    assert_eq!(map_tool_name("fsRead"), Some("file_read"));
    assert_eq!(map_tool_name("readFile"), Some("file_read"));
    assert_eq!(map_tool_name("fs-write"), Some("file_write"));
    assert_eq!(map_tool_name("fs_write"), Some("file_write"));
    assert_eq!(map_tool_name("fsWrite"), Some("file_write"));
    assert_eq!(map_tool_name("writeFile"), Some("file_write"));
    assert_eq!(map_tool_name("fs-list"), Some("file_list"));
    assert_eq!(map_tool_name("fs_list"), Some("file_list"));
    assert_eq!(map_tool_name("fsList"), Some("file_list"));
    assert_eq!(map_tool_name("listFiles"), Some("file_list"));
    assert_eq!(map_tool_name("list_dir"), Some("file_list"));
    assert_eq!(map_tool_name("ls"), Some("file_list"));
    assert_eq!(map_tool_name("fs-exec"), Some("shell_exec"));
    assert_eq!(map_tool_name("run"), Some("shell_exec"));
    assert_eq!(map_tool_name("run_command"), Some("shell_exec"));
    assert_eq!(map_tool_name("runCommand"), Some("shell_exec"));
    assert_eq!(map_tool_name("execute"), Some("shell_exec"));
    assert_eq!(map_tool_name("shell"), Some("shell_exec"));

    // Unknown
    assert_eq!(map_tool_name("unknown_tool"), None);
    assert_eq!(map_tool_name(""), None);
}

#[test]
fn test_normalize_tool_name() {
    // Known OpenFang tools pass through unchanged
    assert_eq!(normalize_tool_name("file_read"), "file_read");
    assert_eq!(normalize_tool_name("file_write"), "file_write");
    assert_eq!(normalize_tool_name("file_search"), "file_search");
    assert_eq!(normalize_tool_name("grep_search"), "grep_search");
    assert_eq!(normalize_tool_name("code_symbol_refs"), "code_symbol_refs");
    assert_eq!(normalize_tool_name("enter_plan_mode"), "enter_plan_mode");
    assert_eq!(normalize_tool_name("exit_plan_mode"), "exit_plan_mode");
    assert_eq!(normalize_tool_name("todo_write"), "todo_write");
    assert_eq!(normalize_tool_name("shell_exec"), "shell_exec");
    assert_eq!(normalize_tool_name("web_search"), "web_search");

    // Aliases get normalized to canonical names
    assert_eq!(normalize_tool_name("fs-read"), "file_read");
    assert_eq!(normalize_tool_name("fs-write"), "file_write");
    assert_eq!(normalize_tool_name("fs-list"), "file_list");
    assert_eq!(normalize_tool_name("fs-exec"), "shell_exec");
    assert_eq!(normalize_tool_name("Read"), "file_read");
    assert_eq!(normalize_tool_name("Bash"), "shell_exec");
    assert_eq!(normalize_tool_name("MemoryCompact"), "memory_compact");
    assert_eq!(normalize_tool_name("TaskCreate"), "task_create");
    assert_eq!(normalize_tool_name("TaskGet"), "task_get");
    assert_eq!(normalize_tool_name("TaskUpdate"), "task_update");
    assert_eq!(normalize_tool_name("TaskOutput"), "task_output");
    assert_eq!(normalize_tool_name("TaskStop"), "task_stop");
    assert_eq!(normalize_tool_name("McpResourceList"), "mcp_resource_list");
    assert_eq!(normalize_tool_name("McpResourceRead"), "mcp_resource_read");
    assert_eq!(normalize_tool_name("McpDiagnostics"), "mcp_diagnostics");

    // Unknown names pass through unchanged
    assert_eq!(normalize_tool_name("my_custom_tool"), "my_custom_tool");
    assert_eq!(normalize_tool_name("mcp_server_tool"), "mcp_server_tool");
}

#[test]
fn test_is_known_openfang_tool() {
    // All 23 built-in tools + location_get
    let known = [
        "file_read",
        "file_write",
        "file_list",
        "file_search",
        "grep_search",
        "code_symbol_refs",
        "enter_plan_mode",
        "exit_plan_mode",
        "todo_write",
        "shell_exec",
        "web_search",
        "web_fetch",
        "browser_navigate",
        "memory_recall",
        "memory_store",
        "memory_compact",
        "mcp_resource_list",
        "mcp_resource_read",
        "mcp_diagnostics",
        "agent_send",
        "agent_list",
        "agent_spawn",
        "agent_kill",
        "agent_find",
        "task_post",
        "task_claim",
        "task_complete",
        "task_list",
        "task_create",
        "task_get",
        "task_update",
        "task_output",
        "task_stop",
        "event_publish",
        "schedule_create",
        "schedule_list",
        "schedule_delete",
        "image_analyze",
        "location_get",
    ];
    for tool in &known {
        assert!(is_known_openfang_tool(tool), "Expected {tool} to be known");
    }

    // Unknown
    assert!(!is_known_openfang_tool("unknown"));
    assert!(!is_known_openfang_tool("Read"));
    assert!(!is_known_openfang_tool("Bash"));
}

#[test]
fn normalize_is_idempotent_on_samples() {
    for name in ["Read", "fs-list", "file_read", "my_custom_tool", "memory_search", "", "agents_list"] {
        let once = normalize_tool_name(name);
        assert_eq!(normalize_tool_name(once), once);
    }
}

#[test]
fn every_mapping_targets_a_known_tool() {
    for name in [
        "Read", "Write", "Edit", "Glob", "Grep", "Bash", "sessions_spawn", "agent_message",
        "memory_save", "ripgrep", "symbol_search", "runCommand", "list_dir", "WebFetch",
    ] {
        let target = map_tool_name(name).expect("mapped");
        assert!(is_known_openfang_tool(target), "{name} -> {target}");
    }
}

#[test]
fn mapping_is_case_sensitive() {
    assert_eq!(map_tool_name("READ"), None);
    assert_eq!(map_tool_name("Read "), None);
    assert_eq!(normalize_tool_name("BASH"), "BASH");
    assert!(!is_known_openfang_tool("File_Read"));
}

#[test]
fn known_tools_are_never_mapped_elsewhere() {
    for name in [
        "file_read", "file_list", "file_search", "grep_search", "code_symbol_refs", "agent_list",
        "agent_send", "agent_spawn", "task_create", "memory_store", "web_fetch", "location_get",
    ] {
        match map_tool_name(name) {
            Some(target) => assert_eq!(target, name),
            None => {}
        }
        assert_eq!(normalize_tool_name(name), name);
    }
}
