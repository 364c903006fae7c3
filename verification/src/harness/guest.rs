//! Reading what the guest answers over PowerShell Direct: whether the VM
//! exists, a directory listing, and a file's bytes sent back as base64.

use base64::Engine;
use vstd::prelude::*;

use crate::harness::powershell::double_single_quotes;
use crate::text::{lines, lines_spec, trim_range, trim_spec};

verus! {

/// Whether the `Get-VM` probe's output has an `EXISTS: yes` line.
pub open spec fn vm_exists_spec(lines: Seq<Seq<char>>) -> bool {
    exists|i: int| 0 <= i < lines.len() && trim_spec(lines[i]) == "EXISTS: yes"@
}

/// Whether the `Get-VM` probe reported the VM as existing.
pub fn vm_exists_in(stdout: &str) -> (r: bool)
    ensures
        r == vm_exists_spec(lines_spec(stdout@)),
{
    let all = lines(stdout);
    let ghost views = all@.map_values(|l: Vec<char>| l@);
    let mut i: usize = 0;
    while i < all.len()
        invariant
            views == all@.map_values(|l: Vec<char>| l@),
            views == lines_spec(stdout@),
            i <= all@.len(),
            forall|j: int| 0 <= j < i ==> trim_spec(views[j]) != "EXISTS: yes"@,
        decreases all.len() - i,
    {
        let line = &all[i];
        assert(line@.subrange(0, line@.len() as int) =~= line@);
        let trimmed = trim_range(line, 0, line.len());
        if crate::text::str_equal(trimmed.as_str(), "EXISTS: yes") {
            assert(trim_spec(views[i as int]) == "EXISTS: yes"@);
            return true;
        }
        i = i + 1;
    }
    false
}

/// The file names a directory listing names: its lines trimmed, blank ones
/// left out.
pub open spec fn listing_spec(lines: Seq<Seq<char>>) -> Seq<Seq<char>>
    decreases lines.len(),
{
    if lines.len() == 0 {
        Seq::empty()
    } else {
        let before = listing_spec(lines.drop_last());
        let name = trim_spec(lines.last());
        if name.len() == 0 {
            before
        } else {
            before.push(name)
        }
    }
}

/// The file names a guest directory listing printed, one per line.
pub fn guest_dir_listing(output: &str) -> (r: Vec<String>)
    ensures
        r@.map_values(|s: String| s@) == listing_spec(lines_spec(output@)),
{
    let all = lines(output);
    let ghost views = all@.map_values(|l: Vec<char>| l@);
    let mut names: Vec<String> = Vec::new();
    let mut i: usize = 0;
    while i < all.len()
        invariant
            views == all@.map_values(|l: Vec<char>| l@),
            views == lines_spec(output@),
            i <= all@.len(),
            names@.map_values(|s: String| s@) == listing_spec(views.subrange(0, i as int)),
        decreases all.len() - i,
    {
        let ghost prefix = views.subrange(0, i + 1);
        assert(prefix.drop_last() =~= views.subrange(0, i as int));
        let line = &all[i];
        assert(line@.subrange(0, line@.len() as int) =~= line@);
        let name = trim_range(line, 0, line.len());
        let ghost before = names@.map_values(|s: String| s@);
        if name.unicode_len() > 0 {
            let ghost nv = name@;
            names.push(name);
            assert(names@.map_values(|s: String| s@) =~= before.push(nv));
        }
        i = i + 1;
    }
    assert(views.subrange(0, views.len() as int) =~= views);
    names
}

/// The script block that prints a guest file's bytes as base64, or nothing
/// when the file does not exist.
pub open spec fn read_file_block_spec(remote_path: Seq<char>) -> Seq<char> {
    let escaped = double_single_quotes(remote_path);
    "if (Test-Path -LiteralPath '"@ + escaped + "') { [Convert]::ToBase64String([System.IO.File]::ReadAllBytes('"@
        + escaped + "')) } else { '' }"@
}

/// Builds the script block that reads a guest file.
pub fn read_file_block(remote_path: &str) -> (r: String)
    ensures
        r@ == read_file_block_spec(remote_path@),
{
    let quoted = crate::harness::powershell::ps_quote(remote_path);
    let q = crate::text::chars_of(quoted.as_str());
    let escaped = crate::text::string_of_range(&q, 1, q.len() - 1);
    assert(q@.subrange(1, q@.len() - 1) =~= double_single_quotes(remote_path@));
    let mut r = "if (Test-Path -LiteralPath '".to_owned();
    r.append(escaped.as_str());
    r.append("') { [Convert]::ToBase64String([System.IO.File]::ReadAllBytes('");
    r.append(escaped.as_str());
    r.append("')) } else { '' }");
    r
}

/// What the standard base64 engine decodes a text to, or its error's
/// message.
pub uninterp spec fn base64_standard_decode(text: Seq<char>) -> Result<Seq<u8>, Seq<char>>;

/// Decodes `text` with `base64`'s `STANDARD` engine, keeping the error's
/// `Display` message. The contract names the result as a function of `text`
/// without restating base64.
#[verifier::external_body]
fn decode_base64(text: &str) -> (r: Result<Vec<u8>, String>)
    ensures
        match base64_standard_decode(text@) {
            Ok(bytes) => r matches Ok(v) && v@ == bytes,
            Err(message) => r matches Err(e) && e@ == message,
        },
{
    match base64::engine::general_purpose::STANDARD.decode(text) {
        Ok(bytes) => Ok(bytes),
        Err(error) => Err(error.to_string()),
    }
}

/// The bytes of a guest file, from what the read block printed: nothing
/// means the file does not exist, else the decoded base64.
pub open spec fn guest_file_spec(remote_path: Seq<char>, output: Seq<char>) -> Result<Seq<u8>, Seq<char>> {
    if output.len() == 0 {
        Err(remote_path + " does not exist on the guest"@)
    } else {
        match base64_standard_decode(output) {
            Ok(bytes) => Ok(bytes),
            Err(message) => Err(remote_path + ": guest returned invalid base64: "@ + message),
        }
    }
}

/// The bytes of a guest file from what the read block printed.
pub fn guest_file_bytes(remote_path: &str, output: &str) -> (r: Result<Vec<u8>, String>)
    ensures
        match guest_file_spec(remote_path@, output@) {
            Ok(bytes) => r matches Ok(v) && v@ == bytes,
            Err(detail) => r matches Err(e) && e@ == detail,
        },
{
    if output.unicode_len() == 0 {
        let mut message = remote_path.to_owned();
        message.append(" does not exist on the guest");
        return Err(message);
    }
    match decode_base64(output) {
        Ok(bytes) => Ok(bytes),
        Err(error) => {
            let mut message = remote_path.to_owned();
            message.append(": guest returned invalid base64: ");
            message.append(error.as_str());
            Err(message)
        },
    }
}

} // verus!
