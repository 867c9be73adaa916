//! The configuration lines the bootstrap injects.
//!
//! The data directory's auto-generated configuration file is rewritten
//! with a fixed log-line-prefix setting — the wire contract the log
//! demultiplexer's parser depends on — followed by the caller-supplied
//! settings and the socket directory.

use vstd::prelude::*;
use vstd::string::*;

use crate::logmap::joined_lines;
use crate::strutil::strs_view;

verus! {

/// The prefix setting whose expansion the log-line grammar parses:
/// timestamp, process id and session tag, bracketed and separated.
pub open spec fn log_prefix_setting_chars() -> Seq<char> {
    "log_line_prefix='[%m] [%p] [%c]: '"@
}

/// The whole injected configuration: the log prefix setting, each
/// caller-supplied line, and the socket directory, in that order.
pub open spec fn conf_content_chars(settings: Seq<Seq<char>>, socket_dir: Seq<char>) -> Seq<char> {
    log_prefix_setting_chars() + "\n"@ + joined_lines(settings)
        + "unix_socket_directories = '"@ + socket_dir + "'"@
}

/// Compose the injected configuration file content from the
/// caller-supplied settings and the socket directory path.
pub fn conf_content(settings: &Vec<String>, socket_dir: &str) -> (r: String)
    ensures
        r@ == conf_content_chars(strs_view(settings@), socket_dir@),
{
    let mut out = "log_line_prefix='[%m] [%p] [%c]: '".to_owned();
    out.append("\n");
    let joined = crate::logmap::join_lines(settings);
    out.append(joined.as_str());
    out.append("unix_socket_directories = '");
    out.append(socket_dir);
    out.append("'");
    proof {
        assert(out@ =~= conf_content_chars(strs_view(settings@), socket_dir@));
    }
    out
}

} // verus!
