//! The in-memory log kept for diagnosis.
//!
//! The buffer is a plain value owned by the caller. Each entry is the
//! timestamp in seconds and the message; only the last hundred entries are
//! kept. Reading the clock and writing the log file are the surrounding
//! application's work.

use vstd::prelude::*;

use crate::text::{append_decimal, dec_digits_of};

verus! {

/// How many entries the buffer keeps.
pub const LOG_CAPACITY: usize = 100;

/// The rendering of one entry: the timestamp, a separator, the message.
pub open spec fn log_entry_spec(timestamp_secs: nat, message: Seq<char>) -> Seq<char> {
    dec_digits_of(timestamp_secs) + ": "@ + message
}

/// The in-memory log buffer.
pub struct LogBuffer {
    pub entries: Vec<String>,
}

/// The views of the stored entries.
pub open spec fn log_view(logs: &LogBuffer) -> Seq<Seq<char>> {
    logs.entries@.map_values(|e: String| e@)
}

impl LogBuffer {
    /// At most the last hundred entries are kept.
    pub open spec fn wf(&self) -> bool {
        self.entries@.len() <= LOG_CAPACITY
    }

    pub fn new() -> (r: LogBuffer)
        ensures
            r.wf(),
            log_view(&r).len() == 0,
    {
        LogBuffer { entries: Vec::new() }
    }
}

/// Appends one entry, rendered from the timestamp and the message, and
/// drops the oldest entry when the buffer already holds a hundred.
pub fn add_log(logs: &mut LogBuffer, timestamp_secs: u64, message: &str)
    requires
        old(logs).wf(),
    ensures
        final(logs).wf(),
        ({
            let appended = log_view(old(logs)).push(
                log_entry_spec(timestamp_secs as nat, message@),
            );
            log_view(final(logs)) == if appended.len() <= LOG_CAPACITY {
                appended
            } else {
                appended.skip(1)
            }
        }),
{
    let mut entry = String::new();
    append_decimal(&mut entry, timestamp_secs);
    entry.append(": ");
    entry.append(message);
    let ghost before = log_view(logs);
    logs.entries.push(entry);
    proof {
        assert(log_view(logs) =~= before.push(log_entry_spec(timestamp_secs as nat, message@)));
    }
    if logs.entries.len() > LOG_CAPACITY {
        let ghost pushed = log_view(logs);
        let _ = logs.entries.remove(0);
        proof {
            assert(log_view(logs) =~= pushed.skip(1));
        }
    }
}

/// The stored entries, oldest first, as a fresh list.
pub fn get_logs(logs: &LogBuffer) -> (r: Vec<String>)
    ensures
        r@.map_values(|e: String| e@) == log_view(logs),
{
    let n = logs.entries.len();
    let mut out: Vec<String> = Vec::new();
    let mut i: usize = 0;
    while i < n
        invariant
            i <= n,
            n == logs.entries@.len(),
            out@.map_values(|e: String| e@) =~= logs.entries@.take(i as int).map_values(
                |e: String| e@,
            ),
        decreases n - i,
    {
        out.push(logs.entries[i].clone());
        i = i + 1;
        proof {
            assert(logs.entries@.take(i as int).map_values(|e: String| e@)
                =~= logs.entries@.take(i - 1).map_values(|e: String| e@).push(
                logs.entries@[i - 1]@,
            ));
            assert(out@.map_values(|e: String| e@) =~= logs.entries@.take(i as int).map_values(
                |e: String| e@,
            ));
        }
    }
    proof {
        assert(logs.entries@.take(n as int) == logs.entries@);
        assert(out@.map_values(|e: String| e@) =~= log_view(logs));
    }
    out
}

/// The log file's name.
pub open spec fn log_file_name() -> Seq<char> {
    "tauri-backend.log"@
}

/// The path of the log file inside the given log directory. The directory
/// itself is platform work the surrounding application resolves.
pub fn get_log_file_path(log_dir: &str) -> (r: String)
    ensures
        r@ == log_dir@ + "/"@ + log_file_name(),
{
    let mut path = log_dir.to_owned();
    path.append("/");
    path.append("tauri-backend.log");
    path
}

} // verus!
