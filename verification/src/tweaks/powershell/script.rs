//! Running a script: the command line that starts PowerShell with it, and
//! what the output of the run means.
use vstd::prelude::*;
use vstd::string::StringExecFns;
use crate::text::{chars_of, push_all, string_from_chars, trim_chars, trimmed};

verus! {

/// The script with each double quote escaped by a backslash.
pub open spec fn escape_quotes(s: Seq<char>) -> Seq<char>
    decreases s.len(),
{
    if s.len() == 0 {
        Seq::empty()
    } else if s.last() == '"' {
        escape_quotes(s.drop_last()) + seq!['\\', '"']
    } else {
        escape_quotes(s.drop_last()).push(s.last())
    }
}

/// The command line that runs `script` in a hidden PowerShell, without a
/// profile and with any execution policy.
pub open spec fn command_line_text(script: Seq<char>) -> Seq<char> {
    "powershell -NoProfile -ExecutionPolicy Bypass -WindowStyle Hidden -Command \""@ + escape_quotes(script) + "\""@
}

/// The command line for `script`, or the message of the failure when the
/// script holds a NUL character, which a command line cannot carry.
pub fn command_line(script: &str) -> (r: Result<String, String>)
    ensures
        (exists|i: int| 0 <= i < script@.len() && script@[i] == '\0') ==> (r matches Err(m) && m@ == "Failed to convert command line to CString"@),
        !(exists|i: int| 0 <= i < script@.len() && script@[i] == '\0') ==> (r matches Ok(c) && c@ == command_line_text(script@)),
{
    let chars = chars_of(script);
    let mut escaped: Vec<char> = Vec::new();
    let mut has_nul = false;
    let mut i: usize = 0;
    while i < chars.len()
        invariant
            chars@ == script@,
            i <= chars.len(),
            escaped@ == escape_quotes(chars@.take(i as int)),
            has_nul == exists|j: int| 0 <= j < i && chars@[j] == '\0',
        decreases chars.len() - i,
    {
        let c = chars[i];
        assert(chars@.take(i + 1).drop_last() =~= chars@.take(i as int));
        assert(chars@.take(i + 1).last() == c);
        if c == '"' {
            escaped.push('\\');
            escaped.push('"');
            assert(escaped@ =~= escape_quotes(chars@.take(i as int)) + seq!['\\', '"']);
        } else {
            escaped.push(c);
        }
        if c == '\0' {
            has_nul = true;
        }
        i = i + 1;
    }
    assert(chars@.take(i as int) =~= chars@);
    if has_nul {
        return Err(String::from_str("Failed to convert command line to CString"));
    }
    let mut line = chars_of("powershell -NoProfile -ExecutionPolicy Bypass -WindowStyle Hidden -Command \"");
    push_all(&mut line, &escaped);
    let quote = chars_of("\"");
    push_all(&mut line, &quote);
    Ok(string_from_chars(line))
}

/// What a run of a script yields: any error output makes it fail with that
/// output trimmed; otherwise its output, trimmed, is the result.
pub fn script_outcome(stdout: &str, stderr: &str) -> (r: Result<String, String>)
    ensures
        stderr@.len() > 0 ==> (r matches Err(m) && m@ == "PowerShell script error: "@ + trimmed(stderr@)),
        stderr@.len() == 0 ==> (r matches Ok(o) && o@ == trimmed(stdout@)),
{
    let err = chars_of(stderr);
    if err.len() > 0 {
        let mut message = chars_of("PowerShell script error: ");
        let trimmed_err = trim_chars(&err);
        push_all(&mut message, &trimmed_err);
        Err(string_from_chars(message))
    } else {
        let out = chars_of(stdout);
        Ok(string_from_chars(trim_chars(&out)))
    }
}

} // verus!
