//! The GitHub token, as `gh auth token` reports it: what its exit status
//! and output mean.
use vstd::prelude::*;
use vstd::utf8::{decode_utf8, valid_utf8};
use crate::api::{lossy_string, utf8_lossy};
use crate::path::{trim, trimmed};

verus! {

/// `String::from_utf8`: the text that `bytes` encode when they are valid
/// UTF-8 (std returns an error exactly when they are not).
#[verifier::external_body]
fn utf8_string(bytes: Vec<u8>) -> (r: Option<String>)
    ensures
        r is Some <==> valid_utf8(bytes@),
        r matches Some(s) ==> s@ == decode_utf8(bytes@),
{
    String::from_utf8(bytes).ok()
}

/// What `gh auth token` tells: the token (its output, trimmed), or why
/// there is none.
pub open spec fn token_result(success: bool, stdout: Seq<u8>, stderr: Seq<u8>) -> Result<
    Seq<char>,
    Seq<char>,
> {
    if !success {
        Err(
            "gh auth token failed: "@ + trimmed(utf8_lossy(stderr)) + "\nRun `gh auth login` first."@,
        )
    } else if !valid_utf8(stdout) {
        Err("gh auth token output is not valid UTF-8"@)
    } else if trimmed(decode_utf8(stdout)).len() == 0 {
        Err("gh auth token returned empty — run `gh auth login` first."@)
    } else {
        Ok(trimmed(decode_utf8(stdout)))
    }
}

/// The token that `gh auth token` printed, given whether it succeeded and
/// what it wrote to standard output and standard error.
pub fn token_from_output(success: bool, stdout: Vec<u8>, stderr: &Vec<u8>) -> (r: Result<
    String,
    String,
>)
    ensures
        match (r, token_result(success, stdout@, stderr@)) {
            (Ok(t), Ok(u)) => t@ == u,
            (Err(e), Err(f)) => e@ == f,
            _ => false,
        },
{
    if !success {
        let mut m = String::from_str("gh auth token failed: ");
        let text = lossy_string(stderr.as_slice());
        m.append(trim(text.as_str()).as_str());
        m.append("\nRun `gh auth login` first.");
        return Err(m);
    }
    let ghost out = stdout@;
    let text = match utf8_string(stdout) {
        Some(t) => t,
        None => return Err(String::from_str("gh auth token output is not valid UTF-8")),
    };
    let token = trim(text.as_str());
    if token.as_str().unicode_len() == 0 {
        return Err(String::from_str("gh auth token returned empty — run `gh auth login` first."));
    }
    Ok(token)
}

} // verus!
