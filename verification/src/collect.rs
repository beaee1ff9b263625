//! Collection of a status snapshot from a repository on disk, through
//! libgit2. Every call into git2 stands behind a small trusted wrapper;
//! everything decided on the wrappers' results is verified.
use vstd::prelude::*;
use crate::status::GitStatus;
use crate::text::{chars_to_string, hex8, push_hex_byte};

verus! {

#[verifier::external_type_specification]
#[verifier::external_body]
pub struct ExRepository(git2::Repository);

#[verifier::external_type_specification]
#[verifier::external_body]
pub struct ExReference<'a>(git2::Reference<'a>);

#[verifier::external_type_specification]
#[verifier::external_body]
pub struct ExBranch<'a>(git2::Branch<'a>);

#[verifier::external_type_specification]
#[verifier::external_body]
pub struct ExOid(git2::Oid);

/// The outcome of asking the repository for HEAD: the resolved reference,
/// or the failure kind that decides the fallback branch name.
pub enum HeadLookup<'a> {
    Found(git2::Reference<'a>),
    BareError,
    OtherError,
}

/// Relies on `git2::Repository::open`: opens the repository at exactly
/// this path, `None` on any failure.
#[verifier::external_body]
fn open_repo(path: &str) -> (r: Option<git2::Repository>) {
    match git2::Repository::open(path) {
        Ok(repo) => Some(repo),
        Err(_) => None,
    }
}

/// Relies on `git2::Repository::head`, and on `git2::Error::code` to tell
/// a bare-repository failure apart from any other failure.
#[verifier::external_body]
fn lookup_head<'a>(repo: &'a git2::Repository) -> (r: HeadLookup<'a>) {
    match repo.head() {
        Ok(reference) => HeadLookup::Found(reference),
        Err(e) if e.code() == git2::ErrorCode::BareRepo => HeadLookup::BareError,
        Err(_) => HeadLookup::OtherError,
    }
}

/// Relies on `git2::Reference::shorthand`: the short display name of the
/// reference, `None` when it is not valid text. libgit2 only shortens a
/// validated, normalized reference name by a `refs/...` prefix whose
/// remainder cannot be empty, so a returned name is never the empty string.
#[verifier::external_body]
fn reference_shorthand(r: &git2::Reference) -> (name: Option<String>)
    ensures
        name matches Some(n) ==> n@.len() > 0,
{
    match r.shorthand() {
        Ok(s) => Some(s.to_string()),
        Err(_) => None,
    }
}

/// Relies on `git2::Reference::peel_to_commit` and `git2::Commit::id`: the
/// id of the commit the reference resolves to.
#[verifier::external_body]
fn peel_commit_id(r: &git2::Reference) -> (oid: Option<git2::Oid>) {
    match r.peel_to_commit() {
        Ok(commit) => Some(commit.id()),
        Err(_) => None,
    }
}

/// Relies on `git2::Oid::as_bytes`: the raw bytes of the object id, 20 of
/// them for the default SHA-1 ids.
#[verifier::external_body]
fn oid_bytes(oid: &git2::Oid) -> (r: Vec<u8>)
    ensures
        r@.len() == 20,
{
    oid.as_bytes().to_vec()
}

/// Relies on `git2::Repository::find_branch` with `git2::BranchType::Local`.
#[verifier::external_body]
fn find_local_branch<'a>(repo: &'a git2::Repository, name: &String) -> (r: Option<
    git2::Branch<'a>,
>) {
    match repo.find_branch(name.as_str(), git2::BranchType::Local) {
        Ok(branch) => Some(branch),
        Err(_) => None,
    }
}

/// Relies on `git2::Branch::upstream`: the branch's configured
/// remote-tracking counterpart.
#[verifier::external_body]
fn branch_upstream<'a>(branch: &git2::Branch<'a>) -> (r: Option<git2::Branch<'a>>) {
    match branch.upstream() {
        Ok(upstream) => Some(upstream),
        Err(_) => None,
    }
}

/// Relies on `git2::Branch::get` and `git2::Reference::target`: the id the
/// branch's reference points at directly, if any.
#[verifier::external_body]
fn branch_target(branch: &git2::Branch) -> (r: Option<git2::Oid>) {
    branch.get().target()
}

/// Relies on `git2::Branch::name`: the branch's name, `None` when it is
/// absent or not valid text.
#[verifier::external_body]
fn branch_name(branch: &git2::Branch) -> (r: Option<String>) {
    match branch.name() {
        Ok(Some(name)) => Some(name.to_string()),
        _ => None,
    }
}

/// Relies on `git2::Repository::graph_ahead_behind`: how many commits each
/// of the two ids has that the other cannot reach.
#[verifier::external_body]
fn ahead_behind(repo: &git2::Repository, local: git2::Oid, upstream: git2::Oid) -> (r: Option<
    (usize, usize),
>) {
    match repo.graph_ahead_behind(local, upstream) {
        Ok(counts) => Some(counts),
        Err(_) => None,
    }
}

/// Relies on `git2::Repository::is_empty`: whether the repository has no
/// commits; a failed query counts as not empty.
#[verifier::external_body]
fn repo_is_empty(repo: &git2::Repository) -> (r: bool) {
    repo.is_empty().unwrap_or(false)
}

/// Relies on `git2::StatusOptions` (untracked files included, untracked
/// directories recursed, head-to-index renames detected) and
/// `git2::Repository::statuses`; each entry is mapped one for one to the
/// raw bits of its `git2::Status` word via `StatusEntry::status` and
/// `Status::bits`.
#[verifier::external_body]
fn status_flag_list(repo: &git2::Repository) -> (r: Option<Vec<u32>>) {
    let mut options = git2::StatusOptions::new();
    options.include_untracked(true).recurse_untracked_dirs(true).renames_head_to_index(true);
    match repo.statuses(Some(&mut options)) {
        Ok(statuses) => Some(statuses.iter().map(|entry| entry.status().bits()).collect()),
        Err(_) => None,
    }
}

/// The display identity of a detached HEAD: the first four bytes of the
/// commit id, hex-encoded into eight lower-case characters.
pub fn short_commit_id(bytes: &Vec<u8>) -> (r: String)
    requires
        bytes@.len() >= 4,
    ensures
        r@ == hex8(bytes@),
{
    let mut out: Vec<char> = Vec::new();
    push_hex_byte(&mut out, bytes[0]);
    push_hex_byte(&mut out, bytes[1]);
    push_hex_byte(&mut out, bytes[2]);
    push_hex_byte(&mut out, bytes[3]);
    assert(out@ =~= hex8(bytes@));
    chars_to_string(&out)
}

/// The branch shown when HEAD itself cannot be resolved: a bare or a
/// freshly initialized repository displays `master`, anything else `HEAD`.
pub fn fallback_branch(bare: bool, empty_repo: bool) -> (r: String)
    ensures
        bare || empty_repo ==> r@ == "master"@,
        !(bare || empty_repo) ==> r@ == "HEAD"@,
        r@.len() > 0,
{
    proof {
        reveal_strlit("master");
        reveal_strlit("HEAD");
    }
    if bare || empty_repo {
        "master".to_owned()
    } else {
        "HEAD".to_owned()
    }
}

/// The display identity once HEAD resolved to a reference: the short name
/// itself unless it is the detached sentinel `HEAD`; a detached head shows
/// the hex of the peeled commit id, or `HEAD` again when the peel failed;
/// a missing short name shows `HEAD`. The result is never empty.
pub fn resolve_branch(shorthand: Option<String>, peeled: Option<Vec<u8>>) -> (r: String)
    requires
        shorthand matches Some(n) ==> n@.len() > 0,
        peeled matches Some(b) ==> b@.len() >= 4,
    ensures
        shorthand is None ==> r@ == "HEAD"@,
        shorthand matches Some(n) ==> (if n@ == "HEAD"@ {
            &&& (peeled matches Some(b) ==> r@ == hex8(b@))
            &&& (peeled is None ==> r@ == "HEAD"@)
        } else {
            r@ == n@
        }),
        r@.len() > 0,
{
    proof {
        reveal_strlit("HEAD");
    }
    match shorthand {
        Some(name) => {
            let head_lit: String = "HEAD".to_owned();
            if name == head_lit {
                match peeled {
                    Some(bytes) => short_commit_id(&bytes),
                    None => "HEAD".to_owned(),
                }
            } else {
                name
            }
        },
        None => "HEAD".to_owned(),
    }
}

/// The divergence counts and upstream name once the upstream arm ran:
/// computed counts when the graph walk succeeded, zero otherwise; the
/// upstream's name when it was readable, empty otherwise. Keeps the
/// observable behavior of recording the name even when only the divergence
/// computation failed.
pub fn upstream_summary(divergence: Option<(usize, usize)>, upstream_name: Option<String>) -> (r:
    (usize, usize, String))
    ensures
        divergence matches Some(d) ==> r.0 == d.0 && r.1 == d.1,
        divergence is None ==> r.0 == 0 && r.1 == 0,
        upstream_name matches Some(n) ==> r.2@ == n@,
        upstream_name is None ==> r.2@.len() == 0,
{
    let (ahead, behind): (usize, usize) = match divergence {
        Some(counts) => counts,
        None => (0, 0),
    };
    let remote: String = match upstream_name {
        Some(name) => name,
        None => String::new(),
    };
    (ahead, behind, remote)
}

impl GitStatus {
    /// Collects a snapshot of the repository at `repo_path`. `tag` is the
    /// most recent reachable tag as the caller looked it up, kept as given.
    /// `None` when the path does not open as a repository or the status
    /// enumeration fails; every lesser failure degrades its own field to
    /// empty or zero. Which branch, counts and upstream come back depends
    /// on the repository on disk; what each outcome yields is fixed by the
    /// contracts of `resolve_branch`, `upstream_summary`, `fallback_branch`
    /// and `from_parts`, which this body only wires to the repository.
    pub fn init(repo_path: &str, tag: String) -> (r: Option<GitStatus>)
        ensures
            r matches Some(s) ==> s.tag@ == tag@,
            r matches Some(s) ==> s.branch@.len() > 0,
    {
        let repo = match open_repo(repo_path) {
            Some(repo) => repo,
            None => {
                return None;
            },
        };
        let mut ahead: usize = 0;
        let mut behind: usize = 0;
        let mut remote: String = String::new();
        let branch: String;
        match lookup_head(&repo) {
            HeadLookup::Found(reference) => {
                let shorthand = reference_shorthand(&reference);
                let mut peeled: Option<Vec<u8>> = None;
                match &shorthand {
                    Some(name) => {
                        let head_lit: String = "HEAD".to_owned();
                        if *name == head_lit {
                            // Detached: the identity will be the peeled
                            // commit id, if one can be had.
                            match peel_commit_id(&reference) {
                                Some(oid) => {
                                    peeled = Some(oid_bytes(&oid));
                                },
                                None => {},
                            }
                        } else {
                            // Named branch: run the upstream arm.
                            let mut divergence: Option<(usize, usize)> = None;
                            let mut upstream_name: Option<String> = None;
                            match find_local_branch(&repo, name) {
                                Some(local) => {
                                    match branch_upstream(&local) {
                                        Some(upstream) => {
                                            let local_tip = branch_target(&local);
                                            let upstream_tip = branch_target(&upstream);
                                            match (local_tip, upstream_tip) {
                                                (Some(local_id), Some(upstream_id)) => {
                                                    divergence = ahead_behind(
                                                        &repo,
                                                        local_id,
                                                        upstream_id,
                                                    );
                                                },
                                                _ => {},
                                            }
                                            upstream_name = branch_name(&upstream);
                                        },
                                        None => {},
                                    }
                                },
                                None => {},
                            }
                            let summary = upstream_summary(divergence, upstream_name);
                            ahead = summary.0;
                            behind = summary.1;
                            remote = summary.2;
                        }
                    },
                    None => {},
                }
                branch = resolve_branch(shorthand, peeled);
            },
            HeadLookup::BareError => {
                branch = fallback_branch(true, false);
            },
            HeadLookup::OtherError => {
                let empty_repo = repo_is_empty(&repo);
                branch = fallback_branch(false, empty_repo);
            },
        }
        match status_flag_list(&repo) {
            Some(flags) => Some(GitStatus::from_parts(branch, tag, remote, &flags, ahead, behind)),
            None => None,
        }
    }
}

} // verus!
