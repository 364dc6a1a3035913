//! Names of the translated user-visible strings of the bot manager.

use vstd::prelude::*;

verus! {

// ── App ───────────────────────────────────────────────────────────────────────
pub const TITLE: &'static str = "bots-title";
pub const HOME: &'static str = "bots-home";

// ── Status ────────────────────────────────────────────────────────────────────
pub const STATUS_ENABLED: &'static str = "bots-status-enabled";
pub const STATUS_DISABLED: &'static str = "bots-status-disabled";

// ── Control bot ───────────────────────────────────────────────────────────────
pub const CONTROL_TITLE: &'static str = "bots-control-title";
pub const CONTROL_DESCRIPTION: &'static str = "bots-control-description";

// ── Accounts ──────────────────────────────────────────────────────────────────
pub const ACCOUNTS_TITLE: &'static str = "bots-accounts-title";
pub const ACCOUNTS_EMPTY: &'static str = "bots-accounts-empty";
pub const ACCOUNTS_ADD: &'static str = "bots-accounts-add";
pub const ACCOUNTS_CONNECTED: &'static str = "bots-accounts-connected";
pub const ACCOUNTS_DISCONNECTED: &'static str = "bots-accounts-disconnected";

// ── Messengers ────────────────────────────────────────────────────────────────
pub const MESSENGER_MATRIX: &'static str = "bots-messenger-matrix";
pub const MESSENGER_MATTERMOST: &'static str = "bots-messenger-mattermost";
pub const MESSENGER_DISCORD: &'static str = "bots-messenger-discord";

// ── Groups ────────────────────────────────────────────────────────────────────
pub const GROUPS_TITLE: &'static str = "bots-groups-title";
pub const GROUP_CREATE: &'static str = "bots-group-create";

// ── Broadcast ─────────────────────────────────────────────────────────────────
pub const BROADCAST_TITLE: &'static str = "bots-broadcast-title";
pub const BROADCAST_TARGET_EMPTY: &'static str = "bots-broadcast-target-empty";
pub const BROADCAST_MESSAGE_EMPTY: &'static str = "bots-broadcast-message-empty";

// ── Gatekeeper ────────────────────────────────────────────────────────────────
pub const GATEKEEPER_TITLE: &'static str = "bots-gatekeeper-title";
pub const GATEKEEPER_PENDING: &'static str = "bots-gatekeeper-pending";

// ── Bot types ─────────────────────────────────────────────────────────────────
pub const TYPE_BROADCAST: &'static str = "bots-type-broadcast";
pub const TYPE_DIGEST: &'static str = "bots-type-digest";
pub const TYPE_GATEKEEPER: &'static str = "bots-type-gatekeeper";
pub const TYPE_MONITOR: &'static str = "bots-type-monitor";

} // verus!
