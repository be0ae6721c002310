//! What a session tells about itself: its identity, fixed when it registers,
//! and the status it last reported.

use crate::json::{json_of, member, value_as_bool, value_as_str, value_get, Json};
use vstd::prelude::*;

verus! {

/// The text under `key` in a JSON object, where the member is a string.
pub open spec fn string_member(doc: Json, key: Seq<char>) -> Option<Seq<char>> {
    match member(doc, key) {
        Some(Json::String(s)) => Some(s),
        _ => None,
    }
}

/// The truth value under `key` in a JSON object, where the member is a boolean.
pub open spec fn bool_member(doc: Json, key: Seq<char>) -> Option<bool> {
    match member(doc, key) {
        Some(Json::Bool(b)) => Some(b),
        _ => None,
    }
}

/// Reads the string member `key` of a JSON object.
pub fn read_string(doc: &serde_json::Value, key: &str) -> (r: Option<String>)
    ensures
        match r {
            Some(s) => string_member(json_of(*doc), key@) == Some(s@),
            None => string_member(json_of(*doc), key@).is_none(),
        },
{
    match value_get(doc, key) {
        Some(member) => match value_as_str(member) {
            Some(s) => Some(s.to_owned()),
            None => None,
        },
        None => None,
    }
}

/// Reads the boolean member `key` of a JSON object.
pub fn read_bool(doc: &serde_json::Value, key: &str) -> (r: Option<bool>)
    ensures
        r == bool_member(json_of(*doc), key@),
{
    match value_get(doc, key) {
        Some(member) => value_as_bool(member),
        None => None,
    }
}

/// Identity of a session, as given by the client when it registers.
#[derive(Debug, Clone)]
pub struct ExtensionInfo {
    pub window_id: String,
    pub workspace_name: String,
    pub extension_version: String,
}

/// Mathematical value of an [`ExtensionInfo`].
pub struct ExtensionInfoView {
    pub window_id: Seq<char>,
    pub workspace_name: Seq<char>,
    pub extension_version: Seq<char>,
}

impl View for ExtensionInfo {
    type V = ExtensionInfoView;

    open spec fn view(&self) -> ExtensionInfoView {
        ExtensionInfoView {
            window_id: self.window_id@,
            workspace_name: self.workspace_name@,
            extension_version: self.extension_version@,
        }
    }
}

/// Status last reported by a session. A report replaces the one before it as a whole.
#[derive(Debug, Clone)]
pub struct AntigravityState {
    pub has_accept_button: bool,
    pub has_retry_button: bool,
    pub has_enter_button: bool,
    pub agent_working: bool,
    pub terminal_pending: bool,
    pub workspace_name: String,
}

/// Mathematical value of an [`AntigravityState`].
pub struct AntigravityStateView {
    pub has_accept_button: bool,
    pub has_retry_button: bool,
    pub has_enter_button: bool,
    pub agent_working: bool,
    pub terminal_pending: bool,
    pub workspace_name: Seq<char>,
}

impl View for AntigravityState {
    type V = AntigravityStateView;

    open spec fn view(&self) -> AntigravityStateView {
        AntigravityStateView {
            has_accept_button: self.has_accept_button,
            has_retry_button: self.has_retry_button,
            has_enter_button: self.has_enter_button,
            agent_working: self.agent_working,
            terminal_pending: self.terminal_pending,
            workspace_name: self.workspace_name@,
        }
    }
}

/// The registration that a JSON document carries: an object whose members
/// `windowId`, `workspaceName` and `extensionVersion` are strings. Other
/// members are ignored.
pub open spec fn info_of(doc: Json) -> Option<ExtensionInfoView> {
    match (
        string_member(doc, "windowId"@),
        string_member(doc, "workspaceName"@),
        string_member(doc, "extensionVersion"@),
    ) {
        (Some(window_id), Some(workspace_name), Some(extension_version)) => Some(
            ExtensionInfoView { window_id, workspace_name, extension_version },
        ),
        _ => None,
    }
}

/// The status report that a JSON document carries: an object whose five flags
/// are booleans and whose `workspaceName` is a string. Other members are ignored.
pub open spec fn state_of(doc: Json) -> Option<AntigravityStateView> {
    match (
        bool_member(doc, "hasAcceptButton"@),
        bool_member(doc, "hasRetryButton"@),
        bool_member(doc, "hasEnterButton"@),
        bool_member(doc, "agentWorking"@),
        bool_member(doc, "terminalPending"@),
        string_member(doc, "workspaceName"@),
    ) {
        (
            Some(has_accept_button),
            Some(has_retry_button),
            Some(has_enter_button),
            Some(agent_working),
            Some(terminal_pending),
            Some(workspace_name),
        ) => Some(
            AntigravityStateView {
                has_accept_button,
                has_retry_button,
                has_enter_button,
                agent_working,
                terminal_pending,
                workspace_name,
            },
        ),
        _ => None,
    }
}

impl ExtensionInfo {
    /// Reads a registration from the payload of a message.
    pub fn from_json(payload: &serde_json::Value) -> (r: Option<ExtensionInfo>)
        ensures
            match r {
                Some(info) => info_of(json_of(*payload)) == Some(info@),
                None => info_of(json_of(*payload)).is_none(),
            },
    {
        let window_id = read_string(payload, "windowId");
        let workspace_name = read_string(payload, "workspaceName");
        let extension_version = read_string(payload, "extensionVersion");
        match (window_id, workspace_name, extension_version) {
            (Some(window_id), Some(workspace_name), Some(extension_version)) => Some(
                ExtensionInfo { window_id, workspace_name, extension_version },
            ),
            _ => None,
        }
    }

    /// A copy that has the same value.
    pub fn duplicate(&self) -> (r: ExtensionInfo)
        ensures
            r@ == self@,
    {
        ExtensionInfo {
            window_id: self.window_id.clone(),
            workspace_name: self.workspace_name.clone(),
            extension_version: self.extension_version.clone(),
        }
    }
}

impl AntigravityState {
    /// Reads a status report from the payload of a message.
    pub fn from_json(payload: &serde_json::Value) -> (r: Option<AntigravityState>)
        ensures
            match r {
                Some(state) => state_of(json_of(*payload)) == Some(state@),
                None => state_of(json_of(*payload)).is_none(),
            },
    {
        let has_accept_button = read_bool(payload, "hasAcceptButton");
        let has_retry_button = read_bool(payload, "hasRetryButton");
        let has_enter_button = read_bool(payload, "hasEnterButton");
        let agent_working = read_bool(payload, "agentWorking");
        let terminal_pending = read_bool(payload, "terminalPending");
        let workspace_name = read_string(payload, "workspaceName");
        match (
            has_accept_button,
            has_retry_button,
            has_enter_button,
            agent_working,
            terminal_pending,
            workspace_name,
        ) {
            (
                Some(has_accept_button),
                Some(has_retry_button),
                Some(has_enter_button),
                Some(agent_working),
                Some(terminal_pending),
                Some(workspace_name),
            ) => Some(
                AntigravityState {
                    has_accept_button,
                    has_retry_button,
                    has_enter_button,
                    agent_working,
                    terminal_pending,
                    workspace_name,
                },
            ),
            _ => None,
        }
    }

    /// A copy that has the same value.
    pub fn duplicate(&self) -> (r: AntigravityState)
        ensures
            r@ == self@,
    {
        AntigravityState {
            has_accept_button: self.has_accept_button,
            has_retry_button: self.has_retry_button,
            has_enter_button: self.has_enter_button,
            agent_working: self.agent_working,
            terminal_pending: self.terminal_pending,
            workspace_name: self.workspace_name.clone(),
        }
    }
}

} // verus!
