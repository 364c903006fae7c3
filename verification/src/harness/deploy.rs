//! The deploy verb's decisions: reading the guest's artifact hashes, which
//! artifacts differ from the local build, and what the guest must go through
//! to take the new ones.

use vstd::prelude::*;

use crate::harness::key_values::{collect_pairs, KeyValues};
use crate::text::{chars_of, find_char, lines, lines_spec, split_once_spec, string_of_range, trim_range, trim_spec};

verus! {

/// The path and hash one output line names: the trimmed line split at its
/// first `=`.
pub open spec fn hash_pair(line: Seq<char>) -> Option<(Seq<char>, Seq<char>)> {
    split_once_spec(trim_spec(line), '=')
}

/// The hashes a guest hash listing reports, by path; a later line for a
/// path wins.
pub open spec fn guest_hashes_spec(output: Seq<char>) -> Seq<(Seq<char>, Seq<char>)> {
    collect_pairs(lines_spec(output), |line: Seq<char>| hash_pair(line))
}

/// Parses the guest's `path=hash` (or `path=MISSING`) lines into a lookup
/// table.
pub fn parse_guest_hashes(output: &str) -> (r: KeyValues)
    ensures
        r@ == guest_hashes_spec(output@),
{
    let all = lines(output);
    let ghost views = all@.map_values(|l: Vec<char>| l@);
    let mut hashes = KeyValues::new();
    let mut i: usize = 0;
    while i < all.len()
        invariant
            i <= all@.len(),
            views == all@.map_values(|l: Vec<char>| l@),
            views == lines_spec(output@),
            hashes@ == collect_pairs(views.subrange(0, i as int), |line: Seq<char>| hash_pair(line)),
        decreases all.len() - i,
    {
        let ghost prefix = views.subrange(0, i + 1);
        assert(prefix.drop_last() =~= views.subrange(0, i as int));
        assert(prefix.last() == all@[i as int]@);
        let line = &all[i];
        assert(line@.subrange(0, line@.len() as int) =~= line@);
        let trimmed = trim_range(line, 0, line.len());
        let t = chars_of(trimmed.as_str());
        match find_char(&t, '=') {
            Some(k) => {
                let tn = t.len();
                let path = string_of_range(&t, 0, k);
                let hash = string_of_range(&t, k + 1, tn);
                hashes.insert(path, hash);
            },
            None => {},
        }
        i = i + 1;
    }
    assert(views.subrange(0, views.len() as int) =~= views);
    hashes
}

/// The code of the ASCII lowercase of `c`.
pub open spec fn ascii_lower(c: char) -> u32 {
    if 'A' <= c <= 'Z' {
        (c as u32 + 32) as u32
    } else {
        c as u32
    }
}

/// Whether two texts are equal ignoring ASCII case.
pub open spec fn eq_ignore_ascii_case_spec(a: Seq<char>, b: Seq<char>) -> bool {
    a.len() == b.len() && forall|i: int| 0 <= i < a.len() ==> ascii_lower(a[i]) == ascii_lower(b[i])
}

/// The code of the ASCII lowercase of `c`.
fn lower(c: char) -> (r: u32)
    ensures
        r == ascii_lower(c),
{
    if 'A' <= c && c <= 'Z' {
        c as u32 + 32
    } else {
        c as u32
    }
}

/// Whether two texts are equal ignoring ASCII case, as hashes are compared.
pub fn eq_ignore_ascii_case(a: &str, b: &str) -> (r: bool)
    ensures
        r == eq_ignore_ascii_case_spec(a@, b@),
{
    let x = chars_of(a);
    let y = chars_of(b);
    if x.len() != y.len() {
        return false;
    }
    let mut i: usize = 0;
    while i < x.len()
        invariant
            x@ == a@,
            y@ == b@,
            x@.len() == y@.len(),
            i <= x@.len(),
            forall|j: int| 0 <= j < i ==> ascii_lower(x@[j]) == ascii_lower(y@[j]),
        decreases x.len() - i,
    {
        if lower(x[i]) != lower(y[i]) {
            return false;
        }
        i = i + 1;
    }
    true
}

/// What the guest reports for `path`: its hash, or `MISSING` when the
/// listing has no line for it.
pub open spec fn guest_hash_of(hashes: Seq<(Seq<char>, Seq<char>)>, path: Seq<char>) -> Seq<char> {
    match crate::harness::key_values::kv_get(hashes, path) {
        Some(h) => h,
        None => "MISSING"@,
    }
}

/// The positions of the artifacts whose guest copy differs from the local
/// build: those whose guest hash does not equal the local one, ignoring
/// ASCII case.
pub fn artifacts_needing_copy(remote_paths: &Vec<String>, local_hashes: &Vec<String>, guest: &KeyValues) -> (r: Vec<usize>)
    requires
        remote_paths@.len() == local_hashes@.len(),
    ensures
        forall|k: int| 0 <= k < r@.len() ==> r@[k] < remote_paths@.len(),
        forall|k: int, l: int| 0 <= k < l < r@.len() ==> r@[k] < r@[l],
        forall|i: int|
            0 <= i < remote_paths@.len() ==> (r@.contains(i as usize) <==> !eq_ignore_ascii_case_spec(
                guest_hash_of(guest@, remote_paths@[i]@),
                local_hashes@[i]@,
            )),
{
    let mut needs_copy: Vec<usize> = Vec::new();
    let mut i: usize = 0;
    while i < remote_paths.len()
        invariant
            remote_paths@.len() == local_hashes@.len(),
            i <= remote_paths@.len(),
            forall|k: int| 0 <= k < needs_copy@.len() ==> needs_copy@[k] < i,
            forall|k: int, l: int| 0 <= k < l < needs_copy@.len() ==> needs_copy@[k] < needs_copy@[l],
            forall|j: int|
                0 <= j < i ==> (needs_copy@.contains(j as usize) <==> !eq_ignore_ascii_case_spec(
                    guest_hash_of(guest@, remote_paths@[j]@),
                    local_hashes@[j]@,
                )),
        decreases remote_paths.len() - i,
    {
        let matches = match guest.get(remote_paths[i].as_str()) {
            Some(hash) => eq_ignore_ascii_case(hash.as_str(), local_hashes[i].as_str()),
            None => eq_ignore_ascii_case("MISSING", local_hashes[i].as_str()),
        };
        let ghost before = needs_copy@;
        if !matches {
            needs_copy.push(i);
            proof {
                assert(needs_copy@[before.len() as int] == i);
                assert forall|j: int|
                    #![trigger before.contains(j as usize)]
                    0 <= j < i implies (needs_copy@.contains(j as usize) <==> before.contains(j as usize)) by {
                    if needs_copy@.contains(j as usize) {
                        let k = choose|k: int| 0 <= k < needs_copy@.len() && needs_copy@[k] == j as usize;
                        if k < before.len() {
                            assert(before[k] == j as usize);
                        }
                    }
                    if before.contains(j as usize) {
                        let k = choose|k: int| 0 <= k < before.len() && before[k] == j as usize;
                        assert(needs_copy@[k] == j as usize);
                    }
                }
            }
        } else {
            proof {
                if before.contains(i) {
                    let k = choose|k: int| 0 <= k < before.len() && before[k] == i;
                    assert(before[k] < i);
                }
            }
        }
        i = i + 1;
    }
    needs_copy
}

/// What the guest goes through to take the changed artifacts.
#[derive(Clone, Copy, Debug, PartialEq, Eq)]
pub struct CopyPlan {
    /// Stop the agent and every deployed process first: a running process
    /// can hold an executable open, though never a data file.
    pub stop_guest: bool,
    /// Start the agent's scheduled task afterwards: it was stopped, or the
    /// agent itself was replaced.
    pub restart_agent: bool,
}

/// Plans the copy of the artifacts at `needs_copy`, given which artifacts
/// are executables and which one is the agent.
pub fn copy_plan(needs_copy: &Vec<usize>, is_executable: &Vec<bool>, is_agent: &Vec<bool>) -> (r: CopyPlan)
    requires
        is_executable@.len() == is_agent@.len(),
        forall|k: int| 0 <= k < needs_copy@.len() ==> needs_copy@[k] < is_executable@.len(),
    ensures
        r.stop_guest == exists|k: int| 0 <= k < needs_copy@.len() && is_executable@[needs_copy@[k] as int],
        r.restart_agent == (r.stop_guest || exists|k: int| 0 <= k < needs_copy@.len() && is_agent@[needs_copy@[k] as int]),
{
    let mut executable = false;
    let mut agent = false;
    let mut k: usize = 0;
    while k < needs_copy.len()
        invariant
            is_executable@.len() == is_agent@.len(),
            forall|j: int| 0 <= j < needs_copy@.len() ==> needs_copy@[j] < is_executable@.len(),
            k <= needs_copy@.len(),
            executable == exists|j: int| 0 <= j < k && is_executable@[needs_copy@[j] as int],
            agent == exists|j: int| 0 <= j < k && is_agent@[needs_copy@[j] as int],
        decreases needs_copy.len() - k,
    {
        let index = needs_copy[k];
        if is_executable[index] {
            executable = true;
        }
        if is_agent[index] {
            agent = true;
        }
        k = k + 1;
    }
    CopyPlan { stop_guest: executable, restart_agent: executable || agent }
}

/// Texts joined with `, `.
pub open spec fn join_comma(parts: Seq<Seq<char>>) -> Seq<char>
    decreases parts.len(),
{
    if parts.len() == 0 {
        Seq::empty()
    } else if parts.len() == 1 {
        parts[0]
    } else {
        join_comma(parts.drop_last()) + ", "@ + parts.last()
    }
}

/// The loop that prints `path=hash`, or `path=MISSING`, for each path.
pub open spec fn hash_loop_text() -> Seq<char> {
    "foreach ($p in $paths) {\nif (Test-Path -LiteralPath $p) {\n\"$p=$((Get-FileHash -LiteralPath $p -Algorithm SHA256).Hash)\"\n} else {\n\"$p=MISSING\"\n}\n}"@
}

/// The PowerShell script that hashes every path in the guest in one call:
/// the quoted paths in an array, then the loop printing one line per path.
pub open spec fn guest_hash_script_spec(paths: Seq<Seq<char>>) -> Seq<char> {
    "$paths = @("@ + join_comma(
        paths.map_values(|p: Seq<char>| seq!['\''] + crate::harness::powershell::double_single_quotes(p) + seq!['\'']),
    ) + ")\n"@ + hash_loop_text()
}

/// Builds the script that hashes the guest's copies of `remote_paths`.
pub fn guest_hash_script(remote_paths: &Vec<String>) -> (r: String)
    ensures
        r@ == guest_hash_script_spec(remote_paths@.map_values(|p: String| p@)),
{
    let ghost paths = remote_paths@.map_values(|p: String| p@);
    let ghost quoted = paths.map_values(
        |p: Seq<char>| seq!['\''] + crate::harness::powershell::double_single_quotes(p) + seq!['\''],
    );
    let mut script = "$paths = @(".to_owned();
    let mut i: usize = 0;
    while i < remote_paths.len()
        invariant
            paths == remote_paths@.map_values(|p: String| p@),
            quoted == paths.map_values(
                |p: Seq<char>| seq!['\''] + crate::harness::powershell::double_single_quotes(p) + seq!['\''],
            ),
            i <= remote_paths@.len(),
            script@ == "$paths = @("@ + join_comma(quoted.subrange(0, i as int)),
        decreases remote_paths.len() - i,
    {
        let ghost prefix = quoted.subrange(0, i + 1);
        assert(prefix.drop_last() =~= quoted.subrange(0, i as int));
        if i > 0 {
            script.append(", ");
        }
        let q = crate::harness::powershell::ps_quote(remote_paths[i].as_str());
        script.append(q.as_str());
        i = i + 1;
        proof {
            if i == 1 {
                assert(script@ =~= "$paths = @("@ + join_comma(prefix));
            } else {
                assert(script@ =~= "$paths = @("@ + join_comma(prefix));
            }
        }
    }
    assert(quoted.subrange(0, quoted.len() as int) =~= quoted);
    script.append(")\n");
    script.append(
        "foreach ($p in $paths) {\nif (Test-Path -LiteralPath $p) {\n\"$p=$((Get-FileHash -LiteralPath $p -Algorithm SHA256).Hash)\"\n} else {\n\"$p=MISSING\"\n}\n}",
    );
    script
}

} // verus!
