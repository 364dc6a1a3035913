//! The command line of the bot manager: what each command prints and how it exits.

use vstd::prelude::*;
use crate::text::{cat, pad_right, pad_right_spec};
use crate::ui::controller::{find_spec, set_enabled_spec, BotController};
use crate::ui::model::{bot_views, kind_label, BotView};

verus! {

/// Manage FreeSynergy messaging bots.
pub struct Cli {
    pub command: Command,
}

/// The commands of the bot manager.
pub enum Command {
    /// Run as daemon (gRPC + REST server).
    Daemon,
    /// List all bots.
    List,
    /// Enable a bot by id.
    Enable { id: String },
    /// Disable a bot by id.
    Disable { id: String },
}

/// What a command writes and how the process ends.
pub struct CliReport {
    /// Lines for standard output.
    pub out: Vec<String>,
    /// Lines for standard error.
    pub err: Vec<String>,
    /// The exit status to end with, if not success.
    pub exit_code: Option<i32>,
}

/// The listing line of one bot: id padded to 20, name padded to 25, kind label, and
/// `[on ]` or `[off]`.
pub open spec fn list_line(b: BotView) -> Seq<char> {
    pad_right_spec(b.id, 20) + "  "@ + pad_right_spec(b.name, 25) + "  "@ + kind_label(b.kind)
        + "  ["@ + (if b.enabled { "on "@ } else { "off"@ }) + "]"@
}

/// The listing line of one bot.
fn list_line_of(b: &crate::ui::model::MessagingBot) -> (s: String)
    ensures
        s@ == list_line(b@),
{
    let mut s = pad_right(b.id.as_str(), 20);
    s.append("  ");
    let name = pad_right(b.name.as_str(), 25);
    s.append(name.as_str());
    s.append("  ");
    s.append(b.kind.label());
    s.append("  [");
    if b.enabled {
        s.append("on ");
    } else {
        s.append("off");
    }
    s.append("]");
    s
}

/// Runs a non-daemon command against the controller.
pub fn run_cli(cmd: &Command, ctrl: &mut BotController) -> (r: CliReport)
    requires
        !(cmd is Daemon),
    ensures
        match cmd {
            Command::List => {
                &&& final(ctrl)@ == old(ctrl)@
                &&& r.out@.len() == old(ctrl)@.len()
                &&& forall|i: int| 0 <= i < r.out@.len() ==> #[trigger] r.out@[i]@ == list_line(old(ctrl)@[i])
                &&& r.err@.len() == 0
                &&& r.exit_code is None
            },
            Command::Enable { id } => {
                &&& final(ctrl)@ == set_enabled_spec(old(ctrl)@, id@, true)
                &&& if find_spec(old(ctrl)@, id@) is Some {
                    r.out@.len() == 1 && r.out@[0]@ == "Bot "@ + id@ + " enabled"@ && r.err@.len() == 0
                        && r.exit_code is None
                } else {
                    r.out@.len() == 0 && r.err@.len() == 1 && r.err@[0]@ == "Bot "@ + id@ + " not found"@
                        && r.exit_code == Some(1i32)
                }
            },
            Command::Disable { id } => {
                &&& final(ctrl)@ == set_enabled_spec(old(ctrl)@, id@, false)
                &&& if find_spec(old(ctrl)@, id@) is Some {
                    r.out@.len() == 1 && r.out@[0]@ == "Bot "@ + id@ + " disabled"@ && r.err@.len() == 0
                        && r.exit_code is None
                } else {
                    r.out@.len() == 0 && r.err@.len() == 1 && r.err@[0]@ == "Bot "@ + id@ + " not found"@
                        && r.exit_code == Some(1i32)
                }
            },
            Command::Daemon => false,
        },
{
    let mut out: Vec<String> = Vec::new();
    let mut err: Vec<String> = Vec::new();
    match cmd {
        Command::Daemon => CliReport { out, err, exit_code: None },
        Command::List => {
            let bots = ctrl.list();
            let mut i: usize = 0;
            while i < bots.len()
                invariant
                    i <= bots@.len(),
                    bot_views(bots@) == ctrl@,
                    out@.len() == i,
                    forall|k: int| 0 <= k < i ==> #[trigger] out@[k]@ == list_line(ctrl@[k]),
                decreases bots@.len() - i,
            {
                assert(ctrl@[i as int] == bots@[i as int]@);
                out.push(list_line_of(&bots[i]));
                i = i + 1;
            }
            CliReport { out, err, exit_code: None }
        },
        Command::Enable { id } => {
            if ctrl.enable(id.as_str()) {
                out.push(cat(cat("Bot ", id.as_str()).as_str(), " enabled"));
                CliReport { out, err, exit_code: None }
            } else {
                err.push(cat(cat("Bot ", id.as_str()).as_str(), " not found"));
                CliReport { out, err, exit_code: Some(1) }
            }
        },
        Command::Disable { id } => {
            if ctrl.disable(id.as_str()) {
                out.push(cat(cat("Bot ", id.as_str()).as_str(), " disabled"));
                CliReport { out, err, exit_code: None }
            } else {
                err.push(cat(cat("Bot ", id.as_str()).as_str(), " not found"));
                CliReport { out, err, exit_code: Some(1) }
            }
        },
    }
}

} // verus!
