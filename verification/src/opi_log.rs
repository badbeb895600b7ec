//! What the event log holds: the file a chain logs to, the lines an entry
//! adds, and the text of an event line.

use vstd::prelude::*;
use vstd::string::*;
use crate::text::{decimal, decimal_string};

verus! {

pub const MAINNET: &'static str = "mainnet";
pub const REGTEST: &'static str = "regtest";
pub const SIGNET: &'static str = "signet";
pub const TESTNET: &'static str = "testnet";
pub const TESTNET4: &'static str = "testnet4";

/// The folder a chain's log lives in; mainnet and unknown chains log to the
/// working folder.
pub open spec fn chain_folder_text(chain: Seq<char>) -> Seq<char> {
    if chain == "regtest"@ {
        "/regtest/"@
    } else if chain == "signet"@ {
        "/signet/"@
    } else if chain == "testnet"@ {
        "/testnet3/"@
    } else if chain == "testnet4"@ {
        "/testnet4/"@
    } else {
        seq![]
    }
}

/// Whether two strings hold the same characters.
fn same_text(a: &str, b: &str) -> (r: bool)
    ensures
        r == (a@ == b@),
{
    String::from_str(a) == String::from_str(b)
}

/// The folder a chain's log lives in.
pub fn chain_folder(chain: &str) -> (folder: String)
    ensures
        folder@ == chain_folder_text(chain@),
{
    if same_text(chain, "mainnet") {
        proof {
            reveal_strlit("mainnet");
            reveal_strlit("regtest");
            reveal_strlit("signet");
            reveal_strlit("testnet");
            reveal_strlit("testnet4");
            assert("mainnet"@[0] != "regtest"@[0]);
            assert("mainnet"@[0] != "testnet"@[0]);
        }
        String::new()
    } else if same_text(chain, "regtest") {
        String::from_str("/regtest/")
    } else if same_text(chain, "signet") {
        String::from_str("/signet/")
    } else if same_text(chain, "testnet") {
        String::from_str("/testnet3/")
    } else if same_text(chain, "testnet4") {
        String::from_str("/testnet4/")
    } else {
        String::new()
    }
}

/// The path of a chain's log file.
pub fn log_file_path(chain: &str) -> (path: String)
    ensures
        path@ == chain_folder_text(chain@) + "runes_output.txt"@,
{
    let mut path = chain_folder(chain);
    path.append("runes_output.txt");
    path
}

/// The line that opens a block's entries.
pub open spec fn block_start_line(height: u32) -> Seq<char> {
    "cmd;"@ + decimal(height as nat) + ";block_start"@
}

/// The line that opens a block's entries.
pub fn block_start(height: u32) -> (line: String)
    ensures
        line@ == block_start_line(height),
{
    let mut line = String::from_str("cmd;");
    let h = decimal_string(height as u128);
    line.append(h.as_str());
    line.append(";block_start");
    line
}

/// What one call of the logger writes: the block-start line where this is
/// the block's first non-empty entry, then the entry itself; and whether
/// the next entry is still the block's first.
#[derive(Debug, Clone, PartialEq, Eq)]
pub struct LogPlan {
    /// Printed and written before the entry.
    pub block_start: Option<String>,
    pub entry: Option<String>,
    pub first_in_block: bool,
}

/// Decides what logging `to_write` at `height` writes. An empty entry writes
/// nothing and leaves the block's first entry still to come.
pub fn plan_log(to_write: &str, height: u32, first_in_block: bool) -> (plan: LogPlan)
    ensures
        to_write@.len() == 0 ==> plan.block_start is None && plan.entry is None
            && plan.first_in_block == first_in_block,
        to_write@.len() > 0 ==> {
            &&& plan.entry matches Some(e) && e@ == to_write@
            &&& !plan.first_in_block
            &&& first_in_block ==> (plan.block_start matches Some(b) && b@ == block_start_line(height))
            &&& !first_in_block ==> plan.block_start is None
        },
{
    if to_write.is_empty() {
        return LogPlan { block_start: None, entry: None, first_in_block };
    }
    let block_start = if first_in_block {
        Some(block_start(height))
    } else {
        None
    };
    LogPlan { block_start, entry: Some(String::from_str(to_write)), first_in_block: false }
}

/// The line that records a contract event: the height, the event, the
/// transaction id, the state transition, the output, the id of the contract
/// the operation comes from or goes to, the id of the rune moved, the amount
/// and the output's address, separated by semicolons.
pub open spec fn event_line(
    block_height: u64,
    operate_event: Seq<char>,
    tx_id: Seq<char>,
    stf: Seq<char>,
    out_point: u32,
    contract_id: Seq<char>,
    id: Seq<char>,
    amount: u128,
    script_pub_key: Seq<char>,
) -> Seq<char> {
    "cmd;"@ + decimal(block_height as nat) + ";"@ + operate_event + ";"@ + tx_id + ";"@ + stf + ";"@
        + decimal(out_point as nat) + ";"@ + contract_id + ";"@ + id + ";"@ + decimal(amount as nat)
        + ";"@ + script_pub_key
}

/// The line that records a contract event.
pub fn event_log_line(
    block_height: u64,
    operate_event: &str,
    tx_id: &str,
    stf: &str,
    out_point: u32,
    contract_id: &str,
    id: &str,
    amount: u128,
    script_pub_key: &str,
) -> (line: String)
    ensures
        line@ == event_line(block_height, operate_event@, tx_id@, stf@, out_point, contract_id@, id@,
            amount, script_pub_key@),
{
    let height = decimal_string(block_height as u128);
    let mut line = String::from_str("cmd;");
    line.append(height.as_str());
    line.append(";");
    line.append(operate_event);
    line.append(";");
    line.append(tx_id);
    line.append(";");
    line.append(stf);
    line.append(";");
    let out = decimal_string(out_point as u128);
    line.append(out.as_str());
    line.append(";");
    line.append(contract_id);
    line.append(";");
    line.append(id);
    line.append(";");
    let amt = decimal_string(amount);
    line.append(amt.as_str());
    line.append(";");
    line.append(script_pub_key);
    line
}

} // verus!
