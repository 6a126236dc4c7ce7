//! The response envelope and the exact texts of the failure messages.
//!
//! Every operation answers with `{success, message}`: the authority string
//! on a successful create, the empty string on a successful verify, and a
//! fixed, human-readable message for each failure.  Business failures never
//! travel as transport errors — only the envelope's `success` flag tells
//! them apart.

use crate::orchestrator::OrchestrationError;
use vstd::prelude::*;
use vstd::string::*;

verus! {

/// The message each orchestration failure surfaces with.
pub open spec fn orchestration_error_message(e: OrchestrationError) -> Seq<char> {
    match e {
        OrchestrationError::InvalidInput => "at least provide one client"@,
        OrchestrationError::ValidationFailed(d) => "cannot validate clients: "@ + d@,
        OrchestrationError::GatewayError(d) => "cannot request payment: "@ + d@,
        OrchestrationError::PersistenceError(d) => "cannot add transactiont to database: "@ + d@,
        OrchestrationError::UnknownAuthority(d) => "cannot find authority in db: "@ + d@,
        OrchestrationError::VerificationFailed(d) => "cannot verify payment: "@ + d@,
        OrchestrationError::RegistryApplyError { names, detail, .. } => (
        "CRITICAL: runner failed on names '"@ + names@ + "': "@ + detail@),
    }
}

impl OrchestrationError {
    /// Renders the failure as its envelope message.
    pub fn to_message(&self) -> (msg: String)
        ensures
            msg@ == orchestration_error_message(*self),
    {
        match self {
            OrchestrationError::InvalidInput => String::from_str("at least provide one client"),
            OrchestrationError::ValidationFailed(d) => {
                let mut m = String::from_str("cannot validate clients: ");
                m.append(d.as_str());
                m
            },
            OrchestrationError::GatewayError(d) => {
                let mut m = String::from_str("cannot request payment: ");
                m.append(d.as_str());
                m
            },
            OrchestrationError::PersistenceError(d) => {
                let mut m = String::from_str("cannot add transactiont to database: ");
                m.append(d.as_str());
                m
            },
            OrchestrationError::UnknownAuthority(d) => {
                let mut m = String::from_str("cannot find authority in db: ");
                m.append(d.as_str());
                m
            },
            OrchestrationError::VerificationFailed(d) => {
                let mut m = String::from_str("cannot verify payment: ");
                m.append(d.as_str());
                m
            },
            OrchestrationError::RegistryApplyError { names, detail, .. } => {
                let mut m = String::from_str("CRITICAL: runner failed on names '");
                m.append(names.as_str());
                m.append("': ");
                m.append(detail.as_str());
                m
            },
        }
    }
}

/// The envelope every operation answers with.
pub struct RequestResult {
    pub success: bool,
    pub message: String,
}

/// One hexadecimal digit, lower case.
pub open spec fn hex_digit(d: int) -> char {
    if d == 0 {
        '0'
    } else if d == 1 {
        '1'
    } else if d == 2 {
        '2'
    } else if d == 3 {
        '3'
    } else if d == 4 {
        '4'
    } else if d == 5 {
        '5'
    } else if d == 6 {
        '6'
    } else if d == 7 {
        '7'
    } else if d == 8 {
        '8'
    } else if d == 9 {
        '9'
    } else if d == 10 {
        'a'
    } else if d == 11 {
        'b'
    } else if d == 12 {
        'c'
    } else if d == 13 {
        'd'
    } else if d == 14 {
        'e'
    } else {
        'f'
    }
}

/// How one character is written inside a JSON string: quote and backslash
/// escaped, the named control characters short-escaped, any other control
/// character as `\u00xx`, everything else verbatim.
pub open spec fn json_escape_char(c: char) -> Seq<char> {
    if c == '"' {
        seq!['\\', '"']
    } else if c == '\\' {
        seq!['\\', '\\']
    } else if c == '\u{8}' {
        seq!['\\', 'b']
    } else if c == '\t' {
        seq!['\\', 't']
    } else if c == '\n' {
        seq!['\\', 'n']
    } else if c == '\u{c}' {
        seq!['\\', 'f']
    } else if c == '\r' {
        seq!['\\', 'r']
    } else if (c as u32) < 0x20 {
        seq!['\\', 'u', '0', '0', hex_digit(c as u32 as int / 16), hex_digit(c as u32 as int % 16)]
    } else {
        seq![c]
    }
}

/// A string as it is written inside a JSON document.
pub open spec fn json_escape(s: Seq<char>) -> Seq<char>
    decreases s.len(),
{
    if s.len() == 0 {
        Seq::empty()
    } else {
        json_escape_char(s[0]) + json_escape(s.skip(1))
    }
}

/// The envelope's wire form; the message is escaped as any JSON string.
pub open spec fn envelope_json(success: bool, message: Seq<char>) -> Seq<char> {
    "{\"success\":"@ + (if success {
        "true"@
    } else {
        "false"@
    }) + ",\"message\":\""@ + json_escape(message) + "\"}"@
}

/// One hexadecimal digit, lower case.
fn hex_digit_str(d: u32) -> (h: &'static str)
    requires
        d < 16,
    ensures
        h@ == seq![hex_digit(d as int)],
{
    let h: &'static str = if d == 0 {
        "0"
    } else if d == 1 {
        "1"
    } else if d == 2 {
        "2"
    } else if d == 3 {
        "3"
    } else if d == 4 {
        "4"
    } else if d == 5 {
        "5"
    } else if d == 6 {
        "6"
    } else if d == 7 {
        "7"
    } else if d == 8 {
        "8"
    } else if d == 9 {
        "9"
    } else if d == 10 {
        "a"
    } else if d == 11 {
        "b"
    } else if d == 12 {
        "c"
    } else if d == 13 {
        "d"
    } else if d == 14 {
        "e"
    } else {
        "f"
    };
    proof {
        reveal_strlit("0");
        reveal_strlit("1");
        reveal_strlit("2");
        reveal_strlit("3");
        reveal_strlit("4");
        reveal_strlit("5");
        reveal_strlit("6");
        reveal_strlit("7");
        reveal_strlit("8");
        reveal_strlit("9");
        reveal_strlit("a");
        reveal_strlit("b");
        reveal_strlit("c");
        reveal_strlit("d");
        reveal_strlit("e");
        reveal_strlit("f");
        assert(h@ =~= seq![hex_digit(d as int)]);
    }
    h
}

/// Appends `s` to `out` in its JSON string form.
fn append_json_escaped(out: &mut String, s: &str)
    ensures
        final(out)@ == old(out)@ + json_escape(s@),
{
    let n = s.unicode_len();
    let mut i: usize = 0;
    proof {
        assert(s@.skip(0) =~= s@);
    }
    while i < n
        invariant
            0 <= i <= n,
            n == s@.len(),
            out@ + json_escape(s@.skip(i as int)) == old(out)@ + json_escape(s@),
        decreases n - i,
    {
        let ghost prefix = out@;
        let ghost tail = s@.skip(i as int);
        proof {
            assert(tail[0] == s@[i as int]);
            assert(tail.skip(1) =~= s@.skip(i as int + 1));
        }
        let c = s.get_char(i);
        if c == '"' {
            out.append("\\\"");
            proof {
                reveal_strlit("\\\"");
                assert("\\\""@ =~= seq!['\\', '"']);
            }
        } else if c == '\\' {
            out.append("\\\\");
            proof {
                reveal_strlit("\\\\");
                assert("\\\\"@ =~= seq!['\\', '\\']);
            }
        } else if c == '\u{8}' {
            out.append("\\b");
            proof {
                reveal_strlit("\\b");
                assert("\\b"@ =~= seq!['\\', 'b']);
            }
        } else if c == '\t' {
            out.append("\\t");
            proof {
                reveal_strlit("\\t");
                assert("\\t"@ =~= seq!['\\', 't']);
            }
        } else if c == '\n' {
            out.append("\\n");
            proof {
                reveal_strlit("\\n");
                assert("\\n"@ =~= seq!['\\', 'n']);
            }
        } else if c == '\u{c}' {
            out.append("\\f");
            proof {
                reveal_strlit("\\f");
                assert("\\f"@ =~= seq!['\\', 'f']);
            }
        } else if c == '\r' {
            out.append("\\r");
            proof {
                reveal_strlit("\\r");
                assert("\\r"@ =~= seq!['\\', 'r']);
            }
        } else if (c as u32) < 0x20 {
            out.append("\\u00");
            out.append(hex_digit_str(c as u32 / 16));
            out.append(hex_digit_str(c as u32 % 16));
            proof {
                reveal_strlit("\\u00");
                assert("\\u00"@ =~= seq!['\\', 'u', '0', '0']);
                assert(out@ =~= prefix + json_escape_char(s@[i as int]));
            }
        } else {
            let ch = s.substring_char(i, i + 1);
            proof {
                assert(ch@ =~= seq![s@[i as int]]);
            }
            out.append(ch);
        }
        proof {
            assert(out@ + json_escape(s@.skip(i as int + 1)) =~= prefix + (json_escape_char(
                s@[i as int],
            ) + json_escape(s@.skip(i as int + 1))));
        }
        i = i + 1;
    }
    proof {
        assert(s@.skip(n as int) =~= Seq::<char>::empty());
        assert(out@ + Seq::<char>::empty() =~= out@);
    }
}

impl RequestResult {
    /// Renders the envelope as its wire form, escaping the message as any
    /// JSON encoder would.
    pub fn to_json(&self) -> (r: String)
        ensures
            r@ == envelope_json(self.success, self.message@),
    {
        let mut out = String::from_str("{\"success\":");
        if self.success {
            out.append("true");
        } else {
            out.append("false");
        }
        out.append(",\"message\":\"");
        append_json_escaped(&mut out, self.message.as_str());
        out.append("\"}");
        out
    }
}

/// The envelope for a create outcome: the authority verbatim on success,
/// the failure's message otherwise.
pub fn create_response(r: Result<String, OrchestrationError>) -> (res: RequestResult)
    ensures
        r matches Ok(a) ==> (res.success && res.message == a),
        r matches Err(e) ==> (!res.success && res.message@ == orchestration_error_message(e)),
{
    match r {
        Ok(authority) => RequestResult { success: true, message: authority },
        Err(e) => RequestResult { success: false, message: e.to_message() },
    }
}

/// The envelope for a verify outcome: an empty message on success, the
/// failure's message otherwise.
pub fn verify_response(r: Result<(), OrchestrationError>) -> (res: RequestResult)
    ensures
        r is Ok ==> (res.success && res.message@ == Seq::<char>::empty()),
        r matches Err(e) ==> (!res.success && res.message@ == orchestration_error_message(e)),
{
    match r {
        Ok(_) => RequestResult { success: true, message: String::new() },
        Err(e) => RequestResult { success: false, message: e.to_message() },
    }
}

} // verus!
