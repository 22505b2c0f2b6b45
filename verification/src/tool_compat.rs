//! Tool-name compatibility between OpenClaw-style names and OpenFang built-in tools.
//!
//! Used by the migration engine and the skill system to turn foreign tool names
//! into their OpenFang equivalents.

use vstd::prelude::*;

use crate::text::str_eq;

verus! {

/// The OpenFang tool that an OpenClaw (or otherwise foreign) tool name stands for, if any.
pub open spec fn tool_alias(name: Seq<char>) -> Option<Seq<char>> {
    if name == "Read"@ || name == "read"@ || name == "read_file"@ {
        Some("file_read"@)
    } else if name == "Write"@ || name == "write"@ || name == "write_file"@ {
        Some("file_write"@)
    } else if name == "Edit"@ || name == "edit"@ {
        Some("file_write"@)
    } else if name == "Glob"@ || name == "glob"@ {
        Some("file_search"@)
    } else if name == "list_files"@ {
        Some("file_list"@)
    } else if name == "Grep"@ || name == "grep"@ {
        Some("grep_search"@)
    } else if name == "CodeSymbolRefs"@ || name == "symbol_refs"@ || name == "symbol_references"@ {
        Some("code_symbol_refs"@)
    } else if name == "EnterPlanMode"@ || name == "enter_plan_mode"@ {
        Some("enter_plan_mode"@)
    } else if name == "ExitPlanMode"@ || name == "exit_plan_mode"@ {
        Some("exit_plan_mode"@)
    } else if name == "TodoWrite"@ || name == "todo_write"@ {
        Some("todo_write"@)
    } else if name == "Bash"@ || name == "bash"@ || name == "exec"@ || name == "execute_command"@ {
        Some("shell_exec"@)
    } else if name == "WebSearch"@ || name == "web_search"@ {
        Some("web_search"@)
    } else if name == "WebFetch"@ || name == "fetch_url"@ || name == "web_fetch"@ {
        Some("web_fetch"@)
    } else if name == "browser_navigate"@ {
        Some("browser_navigate"@)
    } else if name == "memory_search"@ || name == "memory_recall"@ {
        Some("memory_recall"@)
    } else if name == "memory_save"@ || name == "memory_store"@ {
        Some("memory_store"@)
    } else if name == "memory_compact"@ || name == "MemoryCompact"@ {
        Some("memory_compact"@)
    } else if name == "mcp_resource_list"@ || name == "McpResourceList"@ {
        Some("mcp_resource_list"@)
    } else if name == "mcp_resource_read"@ || name == "McpResourceRead"@ {
        Some("mcp_resource_read"@)
    } else if name == "mcp_diagnostics"@ || name == "McpDiagnostics"@ {
        Some("mcp_diagnostics"@)
    } else if name == "sessions_send"@ || name == "agent_message"@ {
        Some("agent_send"@)
    } else if name == "sessions_list"@ || name == "agents_list"@ || name == "agent_list"@ {
        Some("agent_list"@)
    } else if name == "sessions_spawn"@ {
        Some("agent_send"@)
    } else if name == "task_create"@ || name == "TaskCreate"@ {
        Some("task_create"@)
    } else if name == "task_get"@ || name == "TaskGet"@ {
        Some("task_get"@)
    } else if name == "task_update"@ || name == "TaskUpdate"@ {
        Some("task_update"@)
    } else if name == "task_output"@ || name == "TaskOutput"@ {
        Some("task_output"@)
    } else if name == "task_stop"@ || name == "TaskStop"@ {
        Some("task_stop"@)
    } else if name == "fs-read"@ || name == "fs_read"@ || name == "fsRead"@ || name == "readFile"@ {
        Some("file_read"@)
    } else if name == "fs-write"@ || name == "fs_write"@ || name == "fsWrite"@ || name == "writeFile"@ {
        Some("file_write"@)
    } else if name == "fs-list"@ || name == "fs_list"@ || name == "fsList"@ || name == "listFiles"@ || name == "list_dir"@ || name == "ls"@ {
        Some("file_list"@)
    } else if name == "file_search"@ || name == "glob_search"@ || name == "find_files"@ {
        Some("file_search"@)
    } else if name == "grep_search"@ || name == "search_code"@ || name == "ripgrep"@ {
        Some("grep_search"@)
    } else if name == "code_symbol_refs"@ || name == "find_symbol_refs"@ || name == "symbol_search"@ {
        Some("code_symbol_refs"@)
    } else if name == "fs-exec"@ || name == "run"@ || name == "run_command"@ || name == "runCommand"@ || name == "execute"@ || name == "shell"@ {
        Some("shell_exec"@)
    } else {
        None
    }
}

/// The names of the OpenFang built-in tools.
pub open spec fn is_openfang_tool(name: Seq<char>) -> bool {
    name == "file_read"@
    || name == "file_write"@
    || name == "file_list"@
    || name == "file_search"@
    || name == "grep_search"@
    || name == "code_symbol_refs"@
    || name == "enter_plan_mode"@
    || name == "exit_plan_mode"@
    || name == "todo_write"@
    || name == "shell_exec"@
    || name == "web_search"@
    || name == "web_fetch"@
    || name == "browser_navigate"@
    || name == "memory_recall"@
    || name == "memory_store"@
    || name == "memory_compact"@
    || name == "mcp_resource_list"@
    || name == "mcp_resource_read"@
    || name == "mcp_diagnostics"@
    || name == "agent_send"@
    || name == "agent_list"@
    || name == "agent_spawn"@
    || name == "agent_kill"@
    || name == "agent_find"@
    || name == "task_post"@
    || name == "task_claim"@
    || name == "task_complete"@
    || name == "task_list"@
    || name == "task_create"@
    || name == "task_get"@
    || name == "task_update"@
    || name == "task_output"@
    || name == "task_stop"@
    || name == "event_publish"@
    || name == "schedule_create"@
    || name == "schedule_list"@
    || name == "schedule_delete"@
    || name == "image_analyze"@
    || name == "location_get"@
}

/// The canonical OpenFang form of a tool name: known tools stay, aliases are mapped,
/// anything else is left as it is.
pub open spec fn normalized_tool(name: Seq<char>) -> Seq<char> {
    if is_openfang_tool(name) {
        name
    } else {
        match tool_alias(name) {
            Some(t) => t,
            None => name,
        }
    }
}

/// The character view of an optional string slice.
pub open spec fn opt_str_view(o: Option<&str>) -> Option<Seq<char>> {
    match o {
        Some(s) => Some(s@),
        None => None,
    }
}

/// Map an OpenClaw tool name to its OpenFang equivalent.
///
/// Returns `None` if the name has no known mapping (it may already be an
/// OpenFang tool name; check with [`is_known_openfang_tool`]).
pub fn map_tool_name(openclaw_name: &str) -> (r: Option<&'static str>)
    ensures
        opt_str_view(r) == tool_alias(openclaw_name@),
{
    let n = openclaw_name;
    if str_eq(n, "Read") || str_eq(n, "read") || str_eq(n, "read_file") {
        return Some("file_read");
    }
    if str_eq(n, "Write") || str_eq(n, "write") || str_eq(n, "write_file") {
        return Some("file_write");
    }
    if str_eq(n, "Edit") || str_eq(n, "edit") {
        return Some("file_write");
    }
    if str_eq(n, "Glob") || str_eq(n, "glob") {
        return Some("file_search");
    }
    if str_eq(n, "list_files") {
        return Some("file_list");
    }
    if str_eq(n, "Grep") || str_eq(n, "grep") {
        return Some("grep_search");
    }
    if str_eq(n, "CodeSymbolRefs") || str_eq(n, "symbol_refs") || str_eq(n, "symbol_references") {
        return Some("code_symbol_refs");
    }
    if str_eq(n, "EnterPlanMode") || str_eq(n, "enter_plan_mode") {
        return Some("enter_plan_mode");
    }
    if str_eq(n, "ExitPlanMode") || str_eq(n, "exit_plan_mode") {
        return Some("exit_plan_mode");
    }
    if str_eq(n, "TodoWrite") || str_eq(n, "todo_write") {
        return Some("todo_write");
    }
    if str_eq(n, "Bash") || str_eq(n, "bash") || str_eq(n, "exec") || str_eq(n, "execute_command") {
        return Some("shell_exec");
    }
    if str_eq(n, "WebSearch") || str_eq(n, "web_search") {
        return Some("web_search");
    }
    if str_eq(n, "WebFetch") || str_eq(n, "fetch_url") || str_eq(n, "web_fetch") {
        return Some("web_fetch");
    }
    if str_eq(n, "browser_navigate") {
        return Some("browser_navigate");
    }
    if str_eq(n, "memory_search") || str_eq(n, "memory_recall") {
        return Some("memory_recall");
    }
    if str_eq(n, "memory_save") || str_eq(n, "memory_store") {
        return Some("memory_store");
    }
    if str_eq(n, "memory_compact") || str_eq(n, "MemoryCompact") {
        return Some("memory_compact");
    }
    if str_eq(n, "mcp_resource_list") || str_eq(n, "McpResourceList") {
        return Some("mcp_resource_list");
    }
    if str_eq(n, "mcp_resource_read") || str_eq(n, "McpResourceRead") {
        return Some("mcp_resource_read");
    }
    if str_eq(n, "mcp_diagnostics") || str_eq(n, "McpDiagnostics") {
        return Some("mcp_diagnostics");
    }
    if str_eq(n, "sessions_send") || str_eq(n, "agent_message") {
        return Some("agent_send");
    }
    if str_eq(n, "sessions_list") || str_eq(n, "agents_list") || str_eq(n, "agent_list") {
        return Some("agent_list");
    }
    if str_eq(n, "sessions_spawn") {
        return Some("agent_send");
    }
    if str_eq(n, "task_create") || str_eq(n, "TaskCreate") {
        return Some("task_create");
    }
    if str_eq(n, "task_get") || str_eq(n, "TaskGet") {
        return Some("task_get");
    }
    if str_eq(n, "task_update") || str_eq(n, "TaskUpdate") {
        return Some("task_update");
    }
    if str_eq(n, "task_output") || str_eq(n, "TaskOutput") {
        return Some("task_output");
    }
    if str_eq(n, "task_stop") || str_eq(n, "TaskStop") {
        return Some("task_stop");
    }
    if str_eq(n, "fs-read") || str_eq(n, "fs_read") || str_eq(n, "fsRead") || str_eq(n, "readFile") {
        return Some("file_read");
    }
    if str_eq(n, "fs-write") || str_eq(n, "fs_write") || str_eq(n, "fsWrite") || str_eq(n, "writeFile") {
        return Some("file_write");
    }
    if str_eq(n, "fs-list") || str_eq(n, "fs_list") || str_eq(n, "fsList") || str_eq(n, "listFiles") || str_eq(n, "list_dir") || str_eq(n, "ls") {
        return Some("file_list");
    }
    if str_eq(n, "file_search") || str_eq(n, "glob_search") || str_eq(n, "find_files") {
        return Some("file_search");
    }
    if str_eq(n, "grep_search") || str_eq(n, "search_code") || str_eq(n, "ripgrep") {
        return Some("grep_search");
    }
    if str_eq(n, "code_symbol_refs") || str_eq(n, "find_symbol_refs") || str_eq(n, "symbol_search") {
        return Some("code_symbol_refs");
    }
    if str_eq(n, "fs-exec") || str_eq(n, "run") || str_eq(n, "run_command") || str_eq(n, "runCommand") || str_eq(n, "execute") || str_eq(n, "shell") {
        return Some("shell_exec");
    }
    None
}

/// Check whether a tool name is a known OpenFang built-in tool.
pub fn is_known_openfang_tool(name: &str) -> (r: bool)
    ensures
        r == is_openfang_tool(name@),
{
    str_eq(name, "file_read")
        || str_eq(name, "file_write")
        || str_eq(name, "file_list")
        || str_eq(name, "file_search")
        || str_eq(name, "grep_search")
        || str_eq(name, "code_symbol_refs")
        || str_eq(name, "enter_plan_mode")
        || str_eq(name, "exit_plan_mode")
        || str_eq(name, "todo_write")
        || str_eq(name, "shell_exec")
        || str_eq(name, "web_search")
        || str_eq(name, "web_fetch")
        || str_eq(name, "browser_navigate")
        || str_eq(name, "memory_recall")
        || str_eq(name, "memory_store")
        || str_eq(name, "memory_compact")
        || str_eq(name, "mcp_resource_list")
        || str_eq(name, "mcp_resource_read")
        || str_eq(name, "mcp_diagnostics")
        || str_eq(name, "agent_send")
        || str_eq(name, "agent_list")
        || str_eq(name, "agent_spawn")
        || str_eq(name, "agent_kill")
        || str_eq(name, "agent_find")
        || str_eq(name, "task_post")
        || str_eq(name, "task_claim")
        || str_eq(name, "task_complete")
        || str_eq(name, "task_list")
        || str_eq(name, "task_create")
        || str_eq(name, "task_get")
        || str_eq(name, "task_update")
        || str_eq(name, "task_output")
        || str_eq(name, "task_stop")
        || str_eq(name, "event_publish")
        || str_eq(name, "schedule_create")
        || str_eq(name, "schedule_list")
        || str_eq(name, "schedule_delete")
        || str_eq(name, "image_analyze")
        || str_eq(name, "location_get")
}

/// Normalize a tool name to its canonical OpenFang form.
///
/// A known OpenFang tool is returned as it is; otherwise the name is mapped
/// through [`map_tool_name`], and a name without a mapping is returned unchanged.
pub fn normalize_tool_name(name: &str) -> (r: &str)
    ensures
        r@ == normalized_tool(name@),
{
    if is_known_openfang_tool(name) {
        return name;
    }
    match map_tool_name(name) {
        Some(t) => t,
        None => name,
    }
}

/// Every alias leads to a known OpenFang tool.
pub proof fn lemma_alias_targets_are_known(name: Seq<char>)
    ensures
        tool_alias(name) matches Some(t) ==> is_openfang_tool(t),
{
}

/// A normalized name is either a known OpenFang tool or the input itself,
/// when the input has no mapping.
pub proof fn lemma_normalized_is_known_or_unmapped(name: Seq<char>)
    ensures
        is_openfang_tool(normalized_tool(name)) || (normalized_tool(name) == name && tool_alias(
            name,
        ) is None),
{
    lemma_alias_targets_are_known(name);
}

/// Normalizing twice gives what normalizing once gives.
pub proof fn lemma_normalize_idempotent(name: Seq<char>)
    ensures
        normalized_tool(normalized_tool(name)) == normalized_tool(name),
{
    lemma_alias_targets_are_known(name);
}

/// A known OpenFang tool name is never mapped to another tool: its mapping, when
/// it has one, is itself.
pub proof fn lemma_known_tools_map_to_themselves(name: Seq<char>)
    requires
        is_openfang_tool(name),
    ensures
        tool_alias(name) is None || tool_alias(name) == Some(name),
{
    broadcast use vstd::string::group_string_axioms;

    reveal_strlit("Bash");
    reveal_strlit("CodeSymbolRefs");
    reveal_strlit("Edit");
    reveal_strlit("EnterPlanMode");
    reveal_strlit("ExitPlanMode");
    reveal_strlit("Glob");
    reveal_strlit("Grep");
    reveal_strlit("McpDiagnostics");
    reveal_strlit("McpResourceList");
    reveal_strlit("McpResourceRead");
    reveal_strlit("MemoryCompact");
    reveal_strlit("Read");
    reveal_strlit("TaskCreate");
    reveal_strlit("TaskGet");
    reveal_strlit("TaskOutput");
    reveal_strlit("TaskStop");
    reveal_strlit("TaskUpdate");
    reveal_strlit("TodoWrite");
    reveal_strlit("WebFetch");
    reveal_strlit("WebSearch");
    reveal_strlit("Write");
    reveal_strlit("agent_find");
    reveal_strlit("agent_kill");
    reveal_strlit("agent_list");
    reveal_strlit("agent_message");
    reveal_strlit("agent_send");
    reveal_strlit("agent_spawn");
    reveal_strlit("agents_list");
    reveal_strlit("bash");
    reveal_strlit("browser_navigate");
    reveal_strlit("code_symbol_refs");
    reveal_strlit("edit");
    reveal_strlit("enter_plan_mode");
    reveal_strlit("event_publish");
    reveal_strlit("exec");
    reveal_strlit("execute");
    reveal_strlit("execute_command");
    reveal_strlit("exit_plan_mode");
    reveal_strlit("fetch_url");
    reveal_strlit("file_list");
    reveal_strlit("file_read");
    reveal_strlit("file_search");
    reveal_strlit("file_write");
    reveal_strlit("find_files");
    reveal_strlit("find_symbol_refs");
    reveal_strlit("fs-exec");
    reveal_strlit("fs-list");
    reveal_strlit("fs-read");
    reveal_strlit("fs-write");
    reveal_strlit("fsList");
    reveal_strlit("fsRead");
    reveal_strlit("fsWrite");
    reveal_strlit("fs_list");
    reveal_strlit("fs_read");
    reveal_strlit("fs_write");
    reveal_strlit("glob");
    reveal_strlit("glob_search");
    reveal_strlit("grep");
    reveal_strlit("grep_search");
    reveal_strlit("image_analyze");
    reveal_strlit("listFiles");
    reveal_strlit("list_dir");
    reveal_strlit("list_files");
    reveal_strlit("location_get");
    reveal_strlit("ls");
    reveal_strlit("mcp_diagnostics");
    reveal_strlit("mcp_resource_list");
    reveal_strlit("mcp_resource_read");
    reveal_strlit("memory_compact");
    reveal_strlit("memory_recall");
    reveal_strlit("memory_save");
    reveal_strlit("memory_search");
    reveal_strlit("memory_store");
    reveal_strlit("read");
    reveal_strlit("readFile");
    reveal_strlit("read_file");
    reveal_strlit("ripgrep");
    reveal_strlit("run");
    reveal_strlit("runCommand");
    reveal_strlit("run_command");
    reveal_strlit("schedule_create");
    reveal_strlit("schedule_delete");
    reveal_strlit("schedule_list");
    reveal_strlit("search_code");
    reveal_strlit("sessions_list");
    reveal_strlit("sessions_send");
    reveal_strlit("sessions_spawn");
    reveal_strlit("shell");
    reveal_strlit("shell_exec");
    reveal_strlit("symbol_references");
    reveal_strlit("symbol_refs");
    reveal_strlit("symbol_search");
    reveal_strlit("task_claim");
    reveal_strlit("task_complete");
    reveal_strlit("task_create");
    reveal_strlit("task_get");
    reveal_strlit("task_list");
    reveal_strlit("task_output");
    reveal_strlit("task_post");
    reveal_strlit("task_stop");
    reveal_strlit("task_update");
    reveal_strlit("todo_write");
    reveal_strlit("web_fetch");
    reveal_strlit("web_search");
    reveal_strlit("write");
    reveal_strlit("writeFile");
    reveal_strlit("write_file");
    // characters that tell apart the names of equal length
    assert("CodeSymbolRefs"@[0] == 'C');
    assert("EnterPlanMode"@[0] == 'E');
    assert("ExitPlanMode"@[0] == 'E');
    assert("McpDiagnostics"@[0] == 'M');
    assert("McpResourceList"@[0] == 'M');
    assert("McpResourceRead"@[0] == 'M');
    assert("MemoryCompact"@[0] == 'M');
    assert("TaskCreate"@[0] == 'T');
    assert("TaskOutput"@[0] == 'T');
    assert("TaskStop"@[0] == 'T');
    assert("TaskUpdate"@[0] == 'T');
    assert("TodoWrite"@[0] == 'T');
    assert("WebFetch"@[0] == 'W');
    assert("WebSearch"@[0] == 'W');
    assert("agent_find"@[0] == 'a');
    assert("agent_find"@[6] == 'f');
    assert("agent_kill"@[0] == 'a');
    assert("agent_kill"@[6] == 'k');
    assert("agent_list"@[0] == 'a');
    assert("agent_list"@[6] == 'l');
    assert("agent_message"@[0] == 'a');
    assert("agent_send"@[0] == 'a');
    assert("agent_send"@[6] == 's');
    assert("agent_spawn"@[0] == 'a');
    assert("agent_spawn"@[5] == '_');
    assert("agents_list"@[0] == 'a');
    assert("agents_list"@[5] == 's');
    assert("browser_navigate"@[0] == 'b');
    assert("code_symbol_refs"@[0] == 'c');
    assert("enter_plan_mode"@[0] == 'e');
    assert("enter_plan_mode"@[1] == 'n');
    assert("event_publish"@[0] == 'e');
    assert("execute_command"@[0] == 'e');
    assert("execute_command"@[1] == 'x');
    assert("exit_plan_mode"@[0] == 'e');
    assert("fetch_url"@[0] == 'f');
    assert("fetch_url"@[1] == 'e');
    assert("file_list"@[0] == 'f');
    assert("file_list"@[1] == 'i');
    assert("file_read"@[0] == 'f');
    assert("file_read"@[1] == 'i');
    assert("file_search"@[0] == 'f');
    assert("file_write"@[0] == 'f');
    assert("file_write"@[2] == 'l');
    assert("find_files"@[0] == 'f');
    assert("find_files"@[2] == 'n');
    assert("find_symbol_refs"@[0] == 'f');
    assert("fs-write"@[0] == 'f');
    assert("fs_write"@[0] == 'f');
    assert("glob_search"@[0] == 'g');
    assert("glob_search"@[1] == 'l');
    assert("grep_search"@[0] == 'g');
    assert("grep_search"@[1] == 'r');
    assert("image_analyze"@[0] == 'i');
    assert("listFiles"@[0] == 'l');
    assert("list_dir"@[0] == 'l');
    assert("list_files"@[0] == 'l');
    assert("location_get"@[0] == 'l');
    assert("mcp_diagnostics"@[0] == 'm');
    assert("mcp_resource_list"@[0] == 'm');
    assert("mcp_resource_list"@[13] == 'l');
    assert("mcp_resource_read"@[0] == 'm');
    assert("mcp_resource_read"@[13] == 'r');
    assert("memory_compact"@[0] == 'm');
    assert("memory_recall"@[0] == 'm');
    assert("memory_recall"@[7] == 'r');
    assert("memory_save"@[0] == 'm');
    assert("memory_search"@[0] == 'm');
    assert("memory_search"@[7] == 's');
    assert("memory_store"@[0] == 'm');
    assert("readFile"@[0] == 'r');
    assert("read_file"@[0] == 'r');
    assert("runCommand"@[0] == 'r');
    assert("run_command"@[0] == 'r');
    assert("schedule_create"@[0] == 's');
    assert("schedule_delete"@[0] == 's');
    assert("schedule_list"@[0] == 's');
    assert("schedule_list"@[1] == 'c');
    assert("search_code"@[0] == 's');
    assert("sessions_list"@[0] == 's');
    assert("sessions_list"@[1] == 'e');
    assert("sessions_send"@[0] == 's');
    assert("sessions_send"@[1] == 'e');
    assert("sessions_spawn"@[0] == 's');
    assert("shell_exec"@[0] == 's');
    assert("symbol_references"@[0] == 's');
    assert("symbol_refs"@[0] == 's');
    assert("symbol_search"@[0] == 's');
    assert("symbol_search"@[1] == 'y');
    assert("task_claim"@[0] == 't');
    assert("task_claim"@[1] == 'a');
    assert("task_complete"@[0] == 't');
    assert("task_create"@[0] == 't');
    assert("task_create"@[5] == 'c');
    assert("task_get"@[0] == 't');
    assert("task_list"@[0] == 't');
    assert("task_list"@[5] == 'l');
    assert("task_output"@[0] == 't');
    assert("task_output"@[5] == 'o');
    assert("task_post"@[0] == 't');
    assert("task_post"@[5] == 'p');
    assert("task_stop"@[0] == 't');
    assert("task_stop"@[5] == 's');
    assert("task_update"@[0] == 't');
    assert("task_update"@[5] == 'u');
    assert("todo_write"@[0] == 't');
    assert("todo_write"@[1] == 'o');
    assert("web_fetch"@[0] == 'w');
    assert("web_fetch"@[1] == 'e');
    assert("web_search"@[0] == 'w');
    assert("web_search"@[1] == 'e');
    assert("writeFile"@[0] == 'w');
    assert("writeFile"@[1] == 'r');
    assert("write_file"@[0] == 'w');
    assert("write_file"@[1] == 'r');
}

/// Known OpenFang tools are left unchanged by normalization.
pub proof fn lemma_known_tools_unchanged(name: Seq<char>)
    requires
        is_openfang_tool(name),
    ensures
        normalized_tool(name) == name,
{
}

/// The alias table: each foreign tool name with the OpenFang tool it stands for.
pub open spec fn alias_table() -> Set<(Seq<char>, Seq<char>)> {
    set![
        ("Read"@, "file_read"@),
        ("read"@, "file_read"@),
        ("read_file"@, "file_read"@),
        ("Write"@, "file_write"@),
        ("write"@, "file_write"@),
        ("write_file"@, "file_write"@),
        ("Edit"@, "file_write"@),
        ("edit"@, "file_write"@),
        ("Glob"@, "file_search"@),
        ("glob"@, "file_search"@),
        ("list_files"@, "file_list"@),
        ("Grep"@, "grep_search"@),
        ("grep"@, "grep_search"@),
        ("CodeSymbolRefs"@, "code_symbol_refs"@),
        ("symbol_refs"@, "code_symbol_refs"@),
        ("symbol_references"@, "code_symbol_refs"@),
        ("EnterPlanMode"@, "enter_plan_mode"@),
        ("enter_plan_mode"@, "enter_plan_mode"@),
        ("ExitPlanMode"@, "exit_plan_mode"@),
        ("exit_plan_mode"@, "exit_plan_mode"@),
        ("TodoWrite"@, "todo_write"@),
        ("todo_write"@, "todo_write"@),
        ("Bash"@, "shell_exec"@),
        ("bash"@, "shell_exec"@),
        ("exec"@, "shell_exec"@),
        ("execute_command"@, "shell_exec"@),
        ("WebSearch"@, "web_search"@),
        ("web_search"@, "web_search"@),
        ("WebFetch"@, "web_fetch"@),
        ("fetch_url"@, "web_fetch"@),
        ("web_fetch"@, "web_fetch"@),
        ("browser_navigate"@, "browser_navigate"@),
        ("memory_search"@, "memory_recall"@),
        ("memory_recall"@, "memory_recall"@),
        ("memory_save"@, "memory_store"@),
        ("memory_store"@, "memory_store"@),
        ("memory_compact"@, "memory_compact"@),
        ("MemoryCompact"@, "memory_compact"@),
        ("mcp_resource_list"@, "mcp_resource_list"@),
        ("McpResourceList"@, "mcp_resource_list"@),
        ("mcp_resource_read"@, "mcp_resource_read"@),
        ("McpResourceRead"@, "mcp_resource_read"@),
        ("mcp_diagnostics"@, "mcp_diagnostics"@),
        ("McpDiagnostics"@, "mcp_diagnostics"@),
        ("sessions_send"@, "agent_send"@),
        ("agent_message"@, "agent_send"@),
        ("sessions_list"@, "agent_list"@),
        ("agents_list"@, "agent_list"@),
        ("agent_list"@, "agent_list"@),
        ("sessions_spawn"@, "agent_send"@),
        ("task_create"@, "task_create"@),
        ("TaskCreate"@, "task_create"@),
        ("task_get"@, "task_get"@),
        ("TaskGet"@, "task_get"@),
        ("task_update"@, "task_update"@),
        ("TaskUpdate"@, "task_update"@),
        ("task_output"@, "task_output"@),
        ("TaskOutput"@, "task_output"@),
        ("task_stop"@, "task_stop"@),
        ("TaskStop"@, "task_stop"@),
        ("fs-read"@, "file_read"@),
        ("fs_read"@, "file_read"@),
        ("fsRead"@, "file_read"@),
        ("readFile"@, "file_read"@),
        ("fs-write"@, "file_write"@),
        ("fs_write"@, "file_write"@),
        ("fsWrite"@, "file_write"@),
        ("writeFile"@, "file_write"@),
        ("fs-list"@, "file_list"@),
        ("fs_list"@, "file_list"@),
        ("fsList"@, "file_list"@),
        ("listFiles"@, "file_list"@),
        ("list_dir"@, "file_list"@),
        ("ls"@, "file_list"@),
        ("file_search"@, "file_search"@),
        ("glob_search"@, "file_search"@),
        ("find_files"@, "file_search"@),
        ("grep_search"@, "grep_search"@),
        ("search_code"@, "grep_search"@),
        ("ripgrep"@, "grep_search"@),
        ("code_symbol_refs"@, "code_symbol_refs"@),
        ("find_symbol_refs"@, "code_symbol_refs"@),
        ("symbol_search"@, "code_symbol_refs"@),
        ("fs-exec"@, "shell_exec"@),
        ("run"@, "shell_exec"@),
        ("run_command"@, "shell_exec"@),
        ("runCommand"@, "shell_exec"@),
        ("execute"@, "shell_exec"@),
        ("shell"@, "shell_exec"@),
    ]
}

/// Every entry of the alias table, and nothing else, is a mapping: a name maps
/// to a tool exactly when the pair is in the table (so `ripgrep`, `grep`,
/// `Grep`, `search_code` and `grep_search` all map to `grep_search`), and a name
/// that is in no pair has no mapping.
#[verifier::rlimit(100)]
pub proof fn lemma_alias_table_exactly(name: Seq<char>, target: Seq<char>)
    ensures
        tool_alias(name) == Some(target) <==> alias_table().contains((name, target)),
{
    broadcast use vstd::string::group_string_axioms;

    reveal_strlit("Bash");
    assert("Bash"@ =~= seq!['B', 'a', 's', 'h']);
    reveal_strlit("CodeSymbolRefs");
    assert("CodeSymbolRefs"@ =~= seq!['C', 'o', 'd', 'e', 'S', 'y', 'm', 'b', 'o', 'l', 'R', 'e', 'f', 's']);
    reveal_strlit("Edit");
    assert("Edit"@ =~= seq!['E', 'd', 'i', 't']);
    reveal_strlit("EnterPlanMode");
    assert("EnterPlanMode"@ =~= seq!['E', 'n', 't', 'e', 'r', 'P', 'l', 'a', 'n', 'M', 'o', 'd', 'e']);
    reveal_strlit("ExitPlanMode");
    assert("ExitPlanMode"@ =~= seq!['E', 'x', 'i', 't', 'P', 'l', 'a', 'n', 'M', 'o', 'd', 'e']);
    reveal_strlit("Glob");
    assert("Glob"@ =~= seq!['G', 'l', 'o', 'b']);
    reveal_strlit("Grep");
    assert("Grep"@ =~= seq!['G', 'r', 'e', 'p']);
    reveal_strlit("McpDiagnostics");
    assert("McpDiagnostics"@ =~= seq!['M', 'c', 'p', 'D', 'i', 'a', 'g', 'n', 'o', 's', 't', 'i', 'c', 's']);
    reveal_strlit("McpResourceList");
    assert("McpResourceList"@ =~= seq!['M', 'c', 'p', 'R', 'e', 's', 'o', 'u', 'r', 'c', 'e', 'L', 'i', 's', 't']);
    reveal_strlit("McpResourceRead");
    assert("McpResourceRead"@ =~= seq!['M', 'c', 'p', 'R', 'e', 's', 'o', 'u', 'r', 'c', 'e', 'R', 'e', 'a', 'd']);
    reveal_strlit("MemoryCompact");
    assert("MemoryCompact"@ =~= seq!['M', 'e', 'm', 'o', 'r', 'y', 'C', 'o', 'm', 'p', 'a', 'c', 't']);
    reveal_strlit("Read");
    assert("Read"@ =~= seq!['R', 'e', 'a', 'd']);
    reveal_strlit("TaskCreate");
    assert("TaskCreate"@ =~= seq!['T', 'a', 's', 'k', 'C', 'r', 'e', 'a', 't', 'e']);
    reveal_strlit("TaskGet");
    assert("TaskGet"@ =~= seq!['T', 'a', 's', 'k', 'G', 'e', 't']);
    reveal_strlit("TaskOutput");
    assert("TaskOutput"@ =~= seq!['T', 'a', 's', 'k', 'O', 'u', 't', 'p', 'u', 't']);
    reveal_strlit("TaskStop");
    assert("TaskStop"@ =~= seq!['T', 'a', 's', 'k', 'S', 't', 'o', 'p']);
    reveal_strlit("TaskUpdate");
    assert("TaskUpdate"@ =~= seq!['T', 'a', 's', 'k', 'U', 'p', 'd', 'a', 't', 'e']);
    reveal_strlit("TodoWrite");
    assert("TodoWrite"@ =~= seq!['T', 'o', 'd', 'o', 'W', 'r', 'i', 't', 'e']);
    reveal_strlit("WebFetch");
    assert("WebFetch"@ =~= seq!['W', 'e', 'b', 'F', 'e', 't', 'c', 'h']);
    reveal_strlit("WebSearch");
    assert("WebSearch"@ =~= seq!['W', 'e', 'b', 'S', 'e', 'a', 'r', 'c', 'h']);
    reveal_strlit("Write");
    assert("Write"@ =~= seq!['W', 'r', 'i', 't', 'e']);
    reveal_strlit("agent_list");
    assert("agent_list"@ =~= seq!['a', 'g', 'e', 'n', 't', '_', 'l', 'i', 's', 't']);
    reveal_strlit("agent_message");
    assert("agent_message"@ =~= seq!['a', 'g', 'e', 'n', 't', '_', 'm', 'e', 's', 's', 'a', 'g', 'e']);
    reveal_strlit("agent_send");
    assert("agent_send"@ =~= seq!['a', 'g', 'e', 'n', 't', '_', 's', 'e', 'n', 'd']);
    reveal_strlit("agents_list");
    assert("agents_list"@ =~= seq!['a', 'g', 'e', 'n', 't', 's', '_', 'l', 'i', 's', 't']);
    reveal_strlit("bash");
    assert("bash"@ =~= seq!['b', 'a', 's', 'h']);
    reveal_strlit("browser_navigate");
    assert("browser_navigate"@ =~= seq!['b', 'r', 'o', 'w', 's', 'e', 'r', '_', 'n', 'a', 'v', 'i', 'g', 'a', 't', 'e']);
    reveal_strlit("code_symbol_refs");
    assert("code_symbol_refs"@ =~= seq!['c', 'o', 'd', 'e', '_', 's', 'y', 'm', 'b', 'o', 'l', '_', 'r', 'e', 'f', 's']);
    reveal_strlit("edit");
    assert("edit"@ =~= seq!['e', 'd', 'i', 't']);
    reveal_strlit("enter_plan_mode");
    assert("enter_plan_mode"@ =~= seq!['e', 'n', 't', 'e', 'r', '_', 'p', 'l', 'a', 'n', '_', 'm', 'o', 'd', 'e']);
    reveal_strlit("exec");
    assert("exec"@ =~= seq!['e', 'x', 'e', 'c']);
    reveal_strlit("execute");
    assert("execute"@ =~= seq!['e', 'x', 'e', 'c', 'u', 't', 'e']);
    reveal_strlit("execute_command");
    assert("execute_command"@ =~= seq!['e', 'x', 'e', 'c', 'u', 't', 'e', '_', 'c', 'o', 'm', 'm', 'a', 'n', 'd']);
    reveal_strlit("exit_plan_mode");
    assert("exit_plan_mode"@ =~= seq!['e', 'x', 'i', 't', '_', 'p', 'l', 'a', 'n', '_', 'm', 'o', 'd', 'e']);
    reveal_strlit("fetch_url");
    assert("fetch_url"@ =~= seq!['f', 'e', 't', 'c', 'h', '_', 'u', 'r', 'l']);
    reveal_strlit("file_list");
    assert("file_list"@ =~= seq!['f', 'i', 'l', 'e', '_', 'l', 'i', 's', 't']);
    reveal_strlit("file_read");
    assert("file_read"@ =~= seq!['f', 'i', 'l', 'e', '_', 'r', 'e', 'a', 'd']);
    reveal_strlit("file_search");
    assert("file_search"@ =~= seq!['f', 'i', 'l', 'e', '_', 's', 'e', 'a', 'r', 'c', 'h']);
    reveal_strlit("file_write");
    assert("file_write"@ =~= seq!['f', 'i', 'l', 'e', '_', 'w', 'r', 'i', 't', 'e']);
    reveal_strlit("find_files");
    assert("find_files"@ =~= seq!['f', 'i', 'n', 'd', '_', 'f', 'i', 'l', 'e', 's']);
    reveal_strlit("find_symbol_refs");
    assert("find_symbol_refs"@ =~= seq!['f', 'i', 'n', 'd', '_', 's', 'y', 'm', 'b', 'o', 'l', '_', 'r', 'e', 'f', 's']);
    reveal_strlit("fs-exec");
    assert("fs-exec"@ =~= seq!['f', 's', '-', 'e', 'x', 'e', 'c']);
    reveal_strlit("fs-list");
    assert("fs-list"@ =~= seq!['f', 's', '-', 'l', 'i', 's', 't']);
    reveal_strlit("fs-read");
    assert("fs-read"@ =~= seq!['f', 's', '-', 'r', 'e', 'a', 'd']);
    reveal_strlit("fs-write");
    assert("fs-write"@ =~= seq!['f', 's', '-', 'w', 'r', 'i', 't', 'e']);
    reveal_strlit("fsList");
    assert("fsList"@ =~= seq!['f', 's', 'L', 'i', 's', 't']);
    reveal_strlit("fsRead");
    assert("fsRead"@ =~= seq!['f', 's', 'R', 'e', 'a', 'd']);
    reveal_strlit("fsWrite");
    assert("fsWrite"@ =~= seq!['f', 's', 'W', 'r', 'i', 't', 'e']);
    reveal_strlit("fs_list");
    assert("fs_list"@ =~= seq!['f', 's', '_', 'l', 'i', 's', 't']);
    reveal_strlit("fs_read");
    assert("fs_read"@ =~= seq!['f', 's', '_', 'r', 'e', 'a', 'd']);
    reveal_strlit("fs_write");
    assert("fs_write"@ =~= seq!['f', 's', '_', 'w', 'r', 'i', 't', 'e']);
    reveal_strlit("glob");
    assert("glob"@ =~= seq!['g', 'l', 'o', 'b']);
    reveal_strlit("glob_search");
    assert("glob_search"@ =~= seq!['g', 'l', 'o', 'b', '_', 's', 'e', 'a', 'r', 'c', 'h']);
    reveal_strlit("grep");
    assert("grep"@ =~= seq!['g', 'r', 'e', 'p']);
    reveal_strlit("grep_search");
    assert("grep_search"@ =~= seq!['g', 'r', 'e', 'p', '_', 's', 'e', 'a', 'r', 'c', 'h']);
    reveal_strlit("listFiles");
    assert("listFiles"@ =~= seq!['l', 'i', 's', 't', 'F', 'i', 'l', 'e', 's']);
    reveal_strlit("list_dir");
    assert("list_dir"@ =~= seq!['l', 'i', 's', 't', '_', 'd', 'i', 'r']);
    reveal_strlit("list_files");
    assert("list_files"@ =~= seq!['l', 'i', 's', 't', '_', 'f', 'i', 'l', 'e', 's']);
    reveal_strlit("ls");
    assert("ls"@ =~= seq!['l', 's']);
    reveal_strlit("mcp_diagnostics");
    assert("mcp_diagnostics"@ =~= seq!['m', 'c', 'p', '_', 'd', 'i', 'a', 'g', 'n', 'o', 's', 't', 'i', 'c', 's']);
    reveal_strlit("mcp_resource_list");
    assert("mcp_resource_list"@ =~= seq!['m', 'c', 'p', '_', 'r', 'e', 's', 'o', 'u', 'r', 'c', 'e', '_', 'l', 'i', 's', 't']);
    reveal_strlit("mcp_resource_read");
    assert("mcp_resource_read"@ =~= seq!['m', 'c', 'p', '_', 'r', 'e', 's', 'o', 'u', 'r', 'c', 'e', '_', 'r', 'e', 'a', 'd']);
    reveal_strlit("memory_compact");
    assert("memory_compact"@ =~= seq!['m', 'e', 'm', 'o', 'r', 'y', '_', 'c', 'o', 'm', 'p', 'a', 'c', 't']);
    reveal_strlit("memory_recall");
    assert("memory_recall"@ =~= seq!['m', 'e', 'm', 'o', 'r', 'y', '_', 'r', 'e', 'c', 'a', 'l', 'l']);
    reveal_strlit("memory_save");
    assert("memory_save"@ =~= seq!['m', 'e', 'm', 'o', 'r', 'y', '_', 's', 'a', 'v', 'e']);
    reveal_strlit("memory_search");
    assert("memory_search"@ =~= seq!['m', 'e', 'm', 'o', 'r', 'y', '_', 's', 'e', 'a', 'r', 'c', 'h']);
    reveal_strlit("memory_store");
    assert("memory_store"@ =~= seq!['m', 'e', 'm', 'o', 'r', 'y', '_', 's', 't', 'o', 'r', 'e']);
    reveal_strlit("read");
    assert("read"@ =~= seq!['r', 'e', 'a', 'd']);
    reveal_strlit("readFile");
    assert("readFile"@ =~= seq!['r', 'e', 'a', 'd', 'F', 'i', 'l', 'e']);
    reveal_strlit("read_file");
    assert("read_file"@ =~= seq!['r', 'e', 'a', 'd', '_', 'f', 'i', 'l', 'e']);
    reveal_strlit("ripgrep");
    assert("ripgrep"@ =~= seq!['r', 'i', 'p', 'g', 'r', 'e', 'p']);
    reveal_strlit("run");
    assert("run"@ =~= seq!['r', 'u', 'n']);
    reveal_strlit("runCommand");
    assert("runCommand"@ =~= seq!['r', 'u', 'n', 'C', 'o', 'm', 'm', 'a', 'n', 'd']);
    reveal_strlit("run_command");
    assert("run_command"@ =~= seq!['r', 'u', 'n', '_', 'c', 'o', 'm', 'm', 'a', 'n', 'd']);
    reveal_strlit("search_code");
    assert("search_code"@ =~= seq!['s', 'e', 'a', 'r', 'c', 'h', '_', 'c', 'o', 'd', 'e']);
    reveal_strlit("sessions_list");
    assert("sessions_list"@ =~= seq!['s', 'e', 's', 's', 'i', 'o', 'n', 's', '_', 'l', 'i', 's', 't']);
    reveal_strlit("sessions_send");
    assert("sessions_send"@ =~= seq!['s', 'e', 's', 's', 'i', 'o', 'n', 's', '_', 's', 'e', 'n', 'd']);
    reveal_strlit("sessions_spawn");
    assert("sessions_spawn"@ =~= seq!['s', 'e', 's', 's', 'i', 'o', 'n', 's', '_', 's', 'p', 'a', 'w', 'n']);
    reveal_strlit("shell");
    assert("shell"@ =~= seq!['s', 'h', 'e', 'l', 'l']);
    reveal_strlit("shell_exec");
    assert("shell_exec"@ =~= seq!['s', 'h', 'e', 'l', 'l', '_', 'e', 'x', 'e', 'c']);
    reveal_strlit("symbol_references");
    assert("symbol_references"@ =~= seq!['s', 'y', 'm', 'b', 'o', 'l', '_', 'r', 'e', 'f', 'e', 'r', 'e', 'n', 'c', 'e', 's']);
    reveal_strlit("symbol_refs");
    assert("symbol_refs"@ =~= seq!['s', 'y', 'm', 'b', 'o', 'l', '_', 'r', 'e', 'f', 's']);
    reveal_strlit("symbol_search");
    assert("symbol_search"@ =~= seq!['s', 'y', 'm', 'b', 'o', 'l', '_', 's', 'e', 'a', 'r', 'c', 'h']);
    reveal_strlit("task_create");
    assert("task_create"@ =~= seq!['t', 'a', 's', 'k', '_', 'c', 'r', 'e', 'a', 't', 'e']);
    reveal_strlit("task_get");
    assert("task_get"@ =~= seq!['t', 'a', 's', 'k', '_', 'g', 'e', 't']);
    reveal_strlit("task_output");
    assert("task_output"@ =~= seq!['t', 'a', 's', 'k', '_', 'o', 'u', 't', 'p', 'u', 't']);
    reveal_strlit("task_stop");
    assert("task_stop"@ =~= seq!['t', 'a', 's', 'k', '_', 's', 't', 'o', 'p']);
    reveal_strlit("task_update");
    assert("task_update"@ =~= seq!['t', 'a', 's', 'k', '_', 'u', 'p', 'd', 'a', 't', 'e']);
    reveal_strlit("todo_write");
    assert("todo_write"@ =~= seq!['t', 'o', 'd', 'o', '_', 'w', 'r', 'i', 't', 'e']);
    reveal_strlit("web_fetch");
    assert("web_fetch"@ =~= seq!['w', 'e', 'b', '_', 'f', 'e', 't', 'c', 'h']);
    reveal_strlit("web_search");
    assert("web_search"@ =~= seq!['w', 'e', 'b', '_', 's', 'e', 'a', 'r', 'c', 'h']);
    reveal_strlit("write");
    assert("write"@ =~= seq!['w', 'r', 'i', 't', 'e']);
    reveal_strlit("writeFile");
    assert("writeFile"@ =~= seq!['w', 'r', 'i', 't', 'e', 'F', 'i', 'l', 'e']);
    reveal_strlit("write_file");
    assert("write_file"@ =~= seq!['w', 'r', 'i', 't', 'e', '_', 'f', 'i', 'l', 'e']);
    assert(tool_alias("Read"@) == Some("file_read"@));
    assert(tool_alias("read"@) == Some("file_read"@));
    assert(tool_alias("read_file"@) == Some("file_read"@));
    assert(tool_alias("Write"@) == Some("file_write"@));
    assert(tool_alias("write"@) == Some("file_write"@));
    assert(tool_alias("write_file"@) == Some("file_write"@));
    assert(tool_alias("Edit"@) == Some("file_write"@));
    assert(tool_alias("edit"@) == Some("file_write"@));
    assert(tool_alias("Glob"@) == Some("file_search"@));
    assert(tool_alias("glob"@) == Some("file_search"@));
    assert(tool_alias("list_files"@) == Some("file_list"@));
    assert(tool_alias("Grep"@) == Some("grep_search"@));
    assert(tool_alias("grep"@) == Some("grep_search"@));
    assert(tool_alias("CodeSymbolRefs"@) == Some("code_symbol_refs"@));
    assert(tool_alias("symbol_refs"@) == Some("code_symbol_refs"@));
    assert(tool_alias("symbol_references"@) == Some("code_symbol_refs"@));
    assert(tool_alias("EnterPlanMode"@) == Some("enter_plan_mode"@));
    assert(tool_alias("enter_plan_mode"@) == Some("enter_plan_mode"@));
    assert(tool_alias("ExitPlanMode"@) == Some("exit_plan_mode"@));
    assert(tool_alias("exit_plan_mode"@) == Some("exit_plan_mode"@));
    assert(tool_alias("TodoWrite"@) == Some("todo_write"@));
    assert(tool_alias("todo_write"@) == Some("todo_write"@));
    assert(tool_alias("Bash"@) == Some("shell_exec"@));
    assert(tool_alias("bash"@) == Some("shell_exec"@));
    assert(tool_alias("exec"@) == Some("shell_exec"@));
    assert(tool_alias("execute_command"@) == Some("shell_exec"@));
    assert(tool_alias("WebSearch"@) == Some("web_search"@));
    assert(tool_alias("web_search"@) == Some("web_search"@));
    assert(tool_alias("WebFetch"@) == Some("web_fetch"@));
    assert(tool_alias("fetch_url"@) == Some("web_fetch"@));
    assert(tool_alias("web_fetch"@) == Some("web_fetch"@));
    assert(tool_alias("browser_navigate"@) == Some("browser_navigate"@));
    assert(tool_alias("memory_search"@) == Some("memory_recall"@));
    assert(tool_alias("memory_recall"@) == Some("memory_recall"@));
    assert(tool_alias("memory_save"@) == Some("memory_store"@));
    assert(tool_alias("memory_store"@) == Some("memory_store"@));
    assert(tool_alias("memory_compact"@) == Some("memory_compact"@));
    assert(tool_alias("MemoryCompact"@) == Some("memory_compact"@));
    assert(tool_alias("mcp_resource_list"@) == Some("mcp_resource_list"@));
    assert(tool_alias("McpResourceList"@) == Some("mcp_resource_list"@));
    assert(tool_alias("mcp_resource_read"@) == Some("mcp_resource_read"@));
    assert(tool_alias("McpResourceRead"@) == Some("mcp_resource_read"@));
    assert(tool_alias("mcp_diagnostics"@) == Some("mcp_diagnostics"@));
    assert(tool_alias("McpDiagnostics"@) == Some("mcp_diagnostics"@));
    assert(tool_alias("sessions_send"@) == Some("agent_send"@));
    assert(tool_alias("agent_message"@) == Some("agent_send"@));
    assert(tool_alias("sessions_list"@) == Some("agent_list"@));
    assert(tool_alias("agents_list"@) == Some("agent_list"@));
    assert(tool_alias("agent_list"@) == Some("agent_list"@));
    assert(tool_alias("sessions_spawn"@) == Some("agent_send"@));
    assert(tool_alias("task_create"@) == Some("task_create"@));
    assert(tool_alias("TaskCreate"@) == Some("task_create"@));
    assert(tool_alias("task_get"@) == Some("task_get"@));
    assert(tool_alias("TaskGet"@) == Some("task_get"@));
    assert(tool_alias("task_update"@) == Some("task_update"@));
    assert(tool_alias("TaskUpdate"@) == Some("task_update"@));
    assert(tool_alias("task_output"@) == Some("task_output"@));
    assert(tool_alias("TaskOutput"@) == Some("task_output"@));
    assert(tool_alias("task_stop"@) == Some("task_stop"@));
    assert(tool_alias("TaskStop"@) == Some("task_stop"@));
    assert(tool_alias("fs-read"@) == Some("file_read"@));
    assert(tool_alias("fs_read"@) == Some("file_read"@));
    assert(tool_alias("fsRead"@) == Some("file_read"@));
    assert(tool_alias("readFile"@) == Some("file_read"@));
    assert(tool_alias("fs-write"@) == Some("file_write"@));
    assert(tool_alias("fs_write"@) == Some("file_write"@));
    assert(tool_alias("fsWrite"@) == Some("file_write"@));
    assert(tool_alias("writeFile"@) == Some("file_write"@));
    assert(tool_alias("fs-list"@) == Some("file_list"@));
    assert(tool_alias("fs_list"@) == Some("file_list"@));
    assert(tool_alias("fsList"@) == Some("file_list"@));
    assert(tool_alias("listFiles"@) == Some("file_list"@));
    assert(tool_alias("list_dir"@) == Some("file_list"@));
    assert(tool_alias("ls"@) == Some("file_list"@));
    assert(tool_alias("file_search"@) == Some("file_search"@));
    assert(tool_alias("glob_search"@) == Some("file_search"@));
    assert(tool_alias("find_files"@) == Some("file_search"@));
    assert(tool_alias("grep_search"@) == Some("grep_search"@));
    assert(tool_alias("search_code"@) == Some("grep_search"@));
    assert(tool_alias("ripgrep"@) == Some("grep_search"@));
    assert(tool_alias("code_symbol_refs"@) == Some("code_symbol_refs"@));
    assert(tool_alias("find_symbol_refs"@) == Some("code_symbol_refs"@));
    assert(tool_alias("symbol_search"@) == Some("code_symbol_refs"@));
    assert(tool_alias("fs-exec"@) == Some("shell_exec"@));
    assert(tool_alias("run"@) == Some("shell_exec"@));
    assert(tool_alias("run_command"@) == Some("shell_exec"@));
    assert(tool_alias("runCommand"@) == Some("shell_exec"@));
    assert(tool_alias("execute"@) == Some("shell_exec"@));
    assert(tool_alias("shell"@) == Some("shell_exec"@));
}

/// The OpenFang built-in tool names, as a table.
pub open spec fn known_tools() -> Set<Seq<char>> {
    set![
        "file_read"@,
        "file_write"@,
        "file_list"@,
        "file_search"@,
        "grep_search"@,
        "code_symbol_refs"@,
        "enter_plan_mode"@,
        "exit_plan_mode"@,
        "todo_write"@,
        "shell_exec"@,
        "web_search"@,
        "web_fetch"@,
        "browser_navigate"@,
        "memory_recall"@,
        "memory_store"@,
        "memory_compact"@,
        "mcp_resource_list"@,
        "mcp_resource_read"@,
        "mcp_diagnostics"@,
        "agent_send"@,
        "agent_list"@,
        "agent_spawn"@,
        "agent_kill"@,
        "agent_find"@,
        "task_post"@,
        "task_claim"@,
        "task_complete"@,
        "task_list"@,
        "task_create"@,
        "task_get"@,
        "task_update"@,
        "task_output"@,
        "task_stop"@,
        "event_publish"@,
        "schedule_create"@,
        "schedule_list"@,
        "schedule_delete"@,
        "image_analyze"@,
        "location_get"@,
    ]
}

/// Exactly the names in the table of built-in tools are known OpenFang tools.
pub proof fn lemma_known_tools_exactly(name: Seq<char>)
    ensures
        is_openfang_tool(name) <==> known_tools().contains(name),
{
}

/// Normalizing a name gives: the name itself for a built-in tool; the table's
/// target for an alias; the name itself for anything else.
pub proof fn lemma_normalize_by_tables(name: Seq<char>, target: Seq<char>)
    ensures
        known_tools().contains(name) ==> normalized_tool(name) == name,
        alias_table().contains((name, target)) ==> normalized_tool(name) == target,
        !known_tools().contains(name) && (forall|t: Seq<char>| !alias_table().contains((name, t)))
            ==> normalized_tool(name) == name,
{
    lemma_known_tools_exactly(name);
    lemma_alias_table_exactly(name, target);
    if is_openfang_tool(name) {
        lemma_known_tools_map_to_themselves(name);
    }
    match tool_alias(name) {
        Some(t) => lemma_alias_table_exactly(name, t),
        None => {},
    }
}

} // verus!
