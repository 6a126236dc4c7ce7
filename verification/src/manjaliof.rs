//! The `manjaliof` client-registry tool: its command lines and the rules
//! for reading its answers.
//!
//! The registry is an external command invoked once per call.  Its `list`
//! command answers with one line per client, space-separated, the client
//! name in the first field and its payment status in the fourth.  This
//! module builds the argument lists and holds the verified decision over a
//! listing: every requested client must appear and must still be unpaid,
//! otherwise the whole request fails.  Spawning the process stays outside
//! the library; the caller hands the captured output in as a string.

use crate::payment::unit_result_view;
use crate::text::{contains_string, has_prefix, is_prefix_of, lines_of, lines_spec, split_on,
    split_on_spec};
use vstd::prelude::*;
use vstd::string::*;

verus! {

/// Name field of a listing line: the first space-separated chunk.
pub open spec fn line_name(line: Seq<char>) -> Seq<char> {
    split_on_spec(line, ' ')[0]
}

/// Status field of a listing line: the fourth space-separated chunk.
pub open spec fn line_info(line: Seq<char>) -> Seq<char> {
    split_on_spec(line, ' ')[3]
}

/// A listing line carries at least the four fields the check reads.
pub open spec fn line_well_formed(line: Seq<char>) -> bool {
    split_on_spec(line, ' ').len() >= 4
}

/// The complaint about a requested client that is no longer unpaid.
pub open spec fn not_notpaid_message(name: Seq<char>, info: Seq<char>) -> Seq<char> {
    "client '"@ + name + "' is not notpaid, it's '"@ + info + "'"@
}

/// The decision over a listing, walked line by line with `matched` names
/// already accounted for: a requested client whose status does not start
/// with `NOTPAID` fails at once; at the end, every requested name must
/// have been seen.
pub open spec fn check_lines(
    lines: Seq<Seq<char>>,
    names: Seq<Seq<char>>,
    matched: int,
) -> Result<(), Seq<char>>
    decreases lines.len(),
{
    if lines.len() == 0 {
        if matched == names.len() {
            Ok(())
        } else {
            Err("cannot find clients"@)
        }
    } else if names.contains(line_name(lines[0])) {
        if !is_prefix_of("NOTPAID"@, line_info(lines[0])) {
            Err(not_notpaid_message(line_name(lines[0]), line_info(lines[0])))
        } else {
            check_lines(lines.skip(1), names, matched + 1)
        }
    } else {
        check_lines(lines.skip(1), names, matched)
    }
}

/// The registry tool, invoked as an external command per call.
pub struct Manjaliof {}

impl Manjaliof {
    pub fn new() -> (m: Self) {
        Manjaliof {  }
    }

    /// Arguments of the `list` invocation whose output
    /// [`Manjaliof::check_clients_list`] decides over.
    pub fn list_command_args() -> (args: Vec<String>)
        ensures
            args.deep_view() == seq!["list"@, "--trim-whitespace"@],
    {
        let mut args: Vec<String> = Vec::new();
        args.push(String::from_str("list"));
        args.push(String::from_str("--trim-whitespace"));
        proof {
            assert(args.deep_view() =~= seq!["list"@, "--trim-whitespace"@]);
        }
        args
    }

    /// Arguments of the `set-info` invocation that marks one client paid.
    pub fn set_paid_command_args(name: &str) -> (args: Vec<String>)
        ensures
            args.deep_view() == seq!["set-info"@, "--name"@, name@, "--info"@, "PAID"@],
    {
        let mut args: Vec<String> = Vec::new();
        args.push(String::from_str("set-info"));
        args.push(String::from_str("--name"));
        args.push(name.to_owned());
        args.push(String::from_str("--info"));
        args.push(String::from_str("PAID"));
        proof {
            assert(args.deep_view() =~= seq!["set-info"@, "--name"@, name@, "--info"@, "PAID"@]);
        }
        args
    }

    /// Decides whether `list` — the captured output of the listing
    /// command — confirms that every one of `names` exists and is still
    /// unpaid.  The caller must have checked that every line carries at
    /// least four fields, as a trimmed listing always does.
    #[verifier::loop_isolation(false)]
    pub fn check_clients_list(list: &str, names: &Vec<String>) -> (r: Result<(), String>)
        requires
            forall|i: int|
                0 <= i < lines_spec(list@).len() ==> line_well_formed(#[trigger] lines_spec(list@)[i]),
        ensures
            unit_result_view(r) == check_lines(lines_spec(list@), names.deep_view(), 0),
    {
        let lines = lines_of(list);
        let mut matched: usize = 0;
        let mut li: usize = 0;
        proof {
            assert(lines.deep_view().skip(0) =~= lines.deep_view());
        }
        while li < lines.len()
            invariant
                li <= lines.len(),
                matched <= li,
                check_lines(lines.deep_view().skip(li as int), names.deep_view(), matched as int)
                    == check_lines(lines.deep_view(), names.deep_view(), 0),
            decreases lines.len() - li,
        {
            let ghost tail = lines.deep_view().skip(li as int);
            proof {
                assert(tail[0] == lines.deep_view()[li as int]);
                assert(tail.skip(1) =~= lines.deep_view().skip(li as int + 1));
            }
            let chunks = split_on(lines[li].as_str(), ' ');
            let name = &chunks[0];
            let info = &chunks[3];
            proof {
                assert(name@ == line_name(tail[0]));
                assert(info@ == line_info(tail[0]));
            }
            if contains_string(names, name) {
                if !has_prefix(info.as_str(), "NOTPAID") {
                    let mut msg = String::from_str("client '");
                    msg.append(name.as_str());
                    msg.append("' is not notpaid, it's '");
                    msg.append(info.as_str());
                    msg.append("'");
                    return Err(msg);
                }
                matched = matched + 1;
            }
            li = li + 1;
        }
        proof {
            assert(lines.deep_view().skip(li as int) =~= Seq::<Seq<char>>::empty());
        }
        if matched != names.len() {
            return Err(String::from_str("cannot find clients"));
        }
        Ok(())
    }
}

} // verus!
