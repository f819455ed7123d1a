//! Which log messages are written, and the exact line each becomes.

use vstd::prelude::*;
use vstd::utf8::encode_utf8;
use crate::config::Config;
use crate::level::LogLevel;

verus! {

/// Whether a message of severity `level` is written when the configured
/// threshold is `threshold`. `Trace` and `Debug` messages are written only
/// under a threshold at or below their own; the rest always are.
pub open spec fn emits(threshold: LogLevel, level: LogLevel) -> bool {
    match level {
        LogLevel::Trace => threshold.rank() <= LogLevel::Trace.rank(),
        LogLevel::Debug => threshold.rank() <= LogLevel::Debug.rank(),
        _ => true,
    }
}

/// The line for one message: the level's name in square brackets, a space,
/// the message, a line feed.
pub open spec fn line_of(level: LogLevel, msg: Seq<char>) -> Seq<char> {
    seq!['['] + level.name() + seq![']', ' '] + msg + seq!['\n']
}

/// Whether a message of severity `level` is written under `cfg`.
pub fn should_emit(cfg: &Config, level: LogLevel) -> (r: bool)
    ensures
        r == emits(cfg.llevel, level),
{
    match level {
        LogLevel::Trace => cfg.llevel.severity() <= LogLevel::Trace.severity(),
        LogLevel::Debug => cfg.llevel.severity() <= LogLevel::Debug.severity(),
        _ => true,
    }
}

/// Builds the line for one message.
pub fn log_line(level: LogLevel, msg: &str) -> (r: String)
    ensures
        r@ == line_of(level, msg@),
{
    let mut line = String::from_str("[");
    line.append(level.label());
    line.append("] ");
    line.append(msg);
    line.append("\n");
    proof {
        reveal_strlit("[");
        reveal_strlit("] ");
        reveal_strlit("\n");
        assert("["@ =~= seq!['[']);
        assert("] "@ =~= seq![']', ' ']);
        assert("\n"@ =~= seq!['\n']);
    }
    line
}

/// Logs `msg` at `level`: appends its line to `out`, as UTF-8, when `cfg`
/// lets that level through, and leaves `out` alone otherwise. The result
/// tells whether the same line also belongs in the log file `cfg.lfile`,
/// which is so exactly for `Error`.
pub fn ulog(out: &mut Vec<u8>, cfg: &Config, level: LogLevel, msg: String) -> (to_file: bool)
    ensures
        final(out)@ == old(out)@ + (if emits(cfg.llevel, level) {
            encode_utf8(line_of(level, msg@))
        } else {
            Seq::<u8>::empty()
        }),
        to_file == (level == LogLevel::Error),
{
    if should_emit(cfg, level) {
        let line = log_line(level, msg.as_str());
        let mut bytes = line.as_str().as_bytes_vec();
        out.append(&mut bytes);
    } else {
        assert(out@ =~= old(out)@ + Seq::<u8>::empty());
    }
    match level {
        LogLevel::Error => true,
        _ => false,
    }
}

} // verus!
