//! Backups taken before every mutation of an existing file. Each file's backups
//! live in a bucket, a directory named after a hash of the file's canonical
//! path; a backup is named `{name}_{timestamp}.bak`. Listing is newest first,
//! and after each backup only the newest `max_backups` are kept.
use vstd::prelude::*;
use crate::lines::{push_char, push_str, copy_str};
use crate::paths::{join, join_path, file_name, file_name_spec, starts_with, has_prefix};
use crate::file_service::{FsAction, Effect, effects};

verus! {

/// Why a backup operation failed.
#[derive(Debug, Clone, PartialEq, Eq)]
pub enum BackupError {
    DirectoryCreationFailed(String),
    FileNotFound(String),
    NoBackupAvailable(String),
    IoError(String),
}

/// One file found in a bucket: its path, its name and its modification time
/// (milliseconds since the epoch).
#[derive(Debug)]
pub struct BackupEntry {
    pub path: String,
    pub name: String,
    pub modified: u64,
}

/// Where backups go, and how many of each file are kept.
#[derive(Debug)]
pub struct BackupManager {
    pub backup_dir: String,
    pub max_backups: usize,
}

/// The number of backups kept per file unless configured otherwise.
pub const MAX_BACKUPS_PER_FILE: usize = 10;

/// The hash of a canonical path that names its bucket.
pub uninterp spec fn path_hash(path: Seq<char>) -> u64;

/// Relies on `BuildHasher::hash_one` with std's `DefaultHasher`, which is
/// created with fixed keys: the hash depends on the text alone.
#[verifier::external_body]
fn hash_path(path: &str) -> (r: u64)
    ensures
        r == path_hash(path@),
{
    std::hash::BuildHasher::hash_one(&std::hash::BuildHasherDefault::<std::collections::hash_map::DefaultHasher>::default(), path)
}

pub open spec fn hex_char(d: nat) -> char {
    if d < 10 {
        ((d + 48) as u8) as char
    } else {
        ((d + 87) as u8) as char
    }
}

/// The last `k` hexadecimal digits of `h`, lower case, with leading zeros.
pub open spec fn hex_digits(h: nat, k: nat) -> Seq<char>
    decreases k,
{
    if k == 0 {
        Seq::empty()
    } else {
        hex_digits(h / 16, (k - 1) as nat).push(hex_char(h % 16))
    }
}

fn push_hex(out: &mut String, h: u64, k: usize)
    ensures
        final(out)@ == old(out)@ + hex_digits(h as nat, k as nat),
    decreases k,
{
    if k > 0 {
        push_hex(out, h / 16, k - 1);
        let d = (h % 16) as u8;
        let c = if d < 10 { (d + 48) as char } else { (d + 87) as char };
        push_char(out, c);
    }
}

/// The bucket of a file: 16 hexadecimal digits of the hash of its canonical path.
pub open spec fn bucket_name_spec(canonical: Seq<char>) -> Seq<char> {
    hex_digits(path_hash(canonical) as nat, 16)
}

/// `{name}_{timestamp}.bak`.
pub open spec fn backup_file_name_spec(name: Seq<char>, timestamp: Seq<char>) -> Seq<char> {
    name + seq!['_'] + timestamp + ".bak"@
}

/// `name` is a backup of the file named `file_name`.
pub open spec fn is_backup_of_spec(name: Seq<char>, file_name: Seq<char>) -> bool {
    has_prefix(name, file_name) && name.len() >= 4 && name.subrange(name.len() - 4, name.len() as int) == ".bak"@
}

/// The entries that are backups of the file named `file_name`.
pub open spec fn backup_filter(file_name: Seq<char>) -> spec_fn(BackupEntry) -> bool {
    |e: BackupEntry| is_backup_of_spec(e.name@, file_name)
}

/// Newest first.
pub open spec fn newest_first(s: Seq<BackupEntry>) -> bool {
    forall|i: int, j: int| 0 <= i < j < s.len() ==> s[i].modified >= s[j].modified
}

pub open spec fn paths_of(s: Seq<BackupEntry>) -> Seq<Seq<char>> {
    s.map_values(|e: BackupEntry| e.path@)
}

/// Where an entry modified at `m` goes in a newest-first listing: after every
/// entry at least as new.
fn insert_position(out: &Vec<BackupEntry>, m: u64) -> (k: usize)
    ensures
        k <= out@.len(),
        forall|i: int| 0 <= i < k ==> out@[i].modified >= m,
        k < out@.len() ==> out@[k as int].modified < m,
{
    let mut k: usize = 0;
    while k < out.len() && out[k].modified >= m
        invariant
            k <= out@.len(),
            forall|i: int| 0 <= i < k ==> out@[i].modified >= m,
        decreases out.len() - k,
    {
        k = k + 1;
    }
    k
}

impl BackupManager {
    /// Backups under `{base_directory}/.backups`, keeping ten per file.
    pub fn new(base_directory: &str) -> (r: Self)
        ensures
            r.backup_dir@ == join_path(base_directory@, ".backups"@),
            r.max_backups == MAX_BACKUPS_PER_FILE,
    {
        BackupManager { backup_dir: join(base_directory, ".backups"), max_backups: MAX_BACKUPS_PER_FILE }
    }

    /// Backups under `{base_directory}/.backups`, keeping `max_backups` per file.
    pub fn with_max(base_directory: &str, max_backups: usize) -> (r: Self)
        ensures
            r.backup_dir@ == join_path(base_directory@, ".backups"@),
            r.max_backups == max_backups,
    {
        BackupManager { backup_dir: join(base_directory, ".backups"), max_backups }
    }

    /// The bucket directory of the file whose canonical path is `canonical`.
    pub fn bucket_dir(&self, canonical: &str) -> (r: String)
        ensures
            r@ == join_path(self.backup_dir@, bucket_name_spec(canonical@)),
    {
        let mut name = String::new();
        push_hex(&mut name, hash_path(canonical), 16);
        join(self.backup_dir.as_str(), name.as_str())
    }

    /// `{name}_{timestamp}.bak`.
    pub fn backup_file_name(name: &str, timestamp: &str) -> (r: String)
        ensures
            r@ == backup_file_name_spec(name@, timestamp@),
    {
        let mut out = copy_str(name);
        push_char(&mut out, '_');
        push_str(&mut out, timestamp);
        push_str(&mut out, ".bak");
        out
    }

    /// Where the backup of `path` taken at `timestamp` goes: in the bucket of its
    /// canonical path (`canonical`, or `path` itself where it has none), named
    /// after its last component. A path without a file name has no backup.
    pub fn generate_backup_filename(&self, path: &str, canonical: &str, timestamp: &str) -> (r: Result<String, BackupError>)
        ensures
            match file_name_spec(path@) {
                Some(n) => r matches Ok(p) && p@ == join_path(join_path(self.backup_dir@, bucket_name_spec(canonical@)),
                    backup_file_name_spec(n, timestamp@)),
                None => r matches Err(BackupError::FileNotFound(_)),
            },
    {
        let name = match file_name(path) {
            Some(n) => n,
            None => {
                return Err(BackupError::FileNotFound(copy_str("Invalid path: no filename component")));
            },
        };
        let dir = self.bucket_dir(canonical);
        let file = BackupManager::backup_file_name(name.as_str(), timestamp);
        Ok(join(dir.as_str(), file.as_str()))
    }

    /// Whether the bucket entry `entry_name` is a backup of the file `file_name`.
    pub fn is_backup_of(entry_name: &str, file_name: &str) -> (r: bool)
        ensures
            r == is_backup_of_spec(entry_name@, file_name@),
    {
        if !starts_with(entry_name, file_name) {
            return false;
        }
        let n = entry_name.unicode_len();
        if n < 4 {
            return false;
        }
        let tail = entry_name.substring_char(n - 4, n);
        crate::json::str_eq(tail, ".bak")
    }

    /// The backups of the file named `file_name` among the entries of its bucket,
    /// newest first.
    pub fn list_backups(&self, file_name: &str, entries: Vec<BackupEntry>) -> (r: Vec<BackupEntry>)
        ensures
            newest_first(r@),
            r@.to_multiset() == entries@.filter(backup_filter(file_name@)).to_multiset(),
    {
        let ghost all = entries@;
        let mut out: Vec<BackupEntry> = Vec::new();
        let mut rest = entries;
        let ghost taken: Seq<BackupEntry> = Seq::empty();
        proof {
            assert(all == taken + rest@);
            reveal(Seq::filter);
            assert(taken.filter(backup_filter(file_name@)) =~= out@);
        }
        while rest.len() > 0
            invariant
                all == taken + rest@,
                newest_first(out@),
                out@.to_multiset() == taken.filter(backup_filter(file_name@)).to_multiset(),
            decreases rest.len(),
        {
            let e = rest.remove(0);
            let ghost old_taken = taken;
            let ghost old_out = out@;
            proof {
                assert(all == (taken.push(e)) + rest@);
                reveal(Seq::filter);
                assert(taken.push(e).drop_last() == taken);
                taken = taken.push(e);
            }
            let is_backup = BackupManager::is_backup_of(e.name.as_str(), file_name);
            proof {
                reveal(Seq::filter);
                if is_backup {
                    assert(backup_filter(file_name@)(e));
                    assert(taken.filter(backup_filter(file_name@)) == old_taken.filter(backup_filter(file_name@)).push(e));
                } else {
                    assert(!backup_filter(file_name@)(e));
                    assert(taken.filter(backup_filter(file_name@)) == old_taken.filter(backup_filter(file_name@)));
                }
            }
            if is_backup {
                let k = insert_position(&out, e.modified);
                let ghost before = out@;
                out.insert(k, e);
                proof {
                    vstd::seq_lib::to_multiset_insert(before, k as int, e);
                    vstd::seq_lib::to_multiset_build(old_taken.filter(backup_filter(file_name@)), e);
                    assert(before.insert(k as int, e) == out@);
                    assert forall|i: int, j: int| 0 <= i < j < out@.len() implies out@[i].modified >= out@[j].modified by {
                        if j < k {
                            assert(out@[i] == before[i] && out@[j] == before[j]);
                        } else if j == k {
                            assert(out@[i] == before[i]);
                        } else if i == k {
                            assert(out@[j] == before[j - 1]);
                        } else if i < k {
                            assert(out@[i] == before[i] && out@[j] == before[j - 1]);
                            assert(before[i].modified >= before[j - 1].modified);
                        } else {
                            assert(out@[i] == before[i - 1] && out@[j] == before[j - 1]);
                        }
                    }
                }
            }
        }
        assert(taken == all);
        out
    }

    /// The backups to delete after one was taken: all but the newest
    /// `max_backups` of the listing.
    pub fn backups_to_remove(&self, listed: &Vec<BackupEntry>) -> (r: Vec<String>)
        requires
            newest_first(listed@),
        ensures
            listed@.len() <= self.max_backups ==> r@.len() == 0,
            listed@.len() > self.max_backups ==> r@.map_values(|s: String| s@) == paths_of(listed@.subrange(self.max_backups as int, listed@.len() as int)),
    {
        let mut out: Vec<String> = Vec::new();
        let n = listed.len();
        if n <= self.max_backups {
            return out;
        }
        let mut i = self.max_backups;
        while i < n
            invariant
                self.max_backups <= i <= n == listed@.len(),
                out@.map_values(|s: String| s@) == paths_of(listed@.subrange(self.max_backups as int, i as int)),
            decreases n - i,
        {
            let p = copy_str(listed[i].path.as_str());
            let ghost prev = out@;
            proof {
                assert(listed@.subrange(self.max_backups as int, i + 1) == listed@.subrange(self.max_backups as int, i as int).push(listed@[i as int]));
            }
            out.push(p);
            proof {
                assert(out@.map_values(|s: String| s@) =~= prev.map_values(|s: String| s@).push(p@));
                assert(out@.map_values(|s: String| s@) =~= paths_of(listed@.subrange(self.max_backups as int, i + 1)));
            }
            i = i + 1;
        }
        out
    }

    /// Restoring a given backup onto `target_path`: the backup must exist; its
    /// bytes overwrite the target, whether or not the backup belongs to it.
    pub fn restore_specific_backup(&self, backup_path: &str, backup_exists: bool, target_path: &str) -> (r: Result<Vec<FsAction>, BackupError>)
        ensures
            !backup_exists ==> (r matches Err(BackupError::FileNotFound(p)) && p@ == backup_path@),
            backup_exists ==> (r matches Ok(plan) && effects(plan@) == seq![Effect::Restore(backup_path@, target_path@)]),
    {
        if !backup_exists {
            return Err(BackupError::FileNotFound(copy_str(backup_path)));
        }
        let mut plan: Vec<FsAction> = Vec::new();
        plan.push(FsAction::Restore { backup: copy_str(backup_path), target: copy_str(target_path) });
        assert(effects(plan@) =~= seq![Effect::Restore(backup_path@, target_path@)]);
        Ok(plan)
    }

    /// The newest backup of the listing, which restoring copies back.
    pub fn latest_backup(path: &str, listed: &Vec<BackupEntry>) -> (r: Result<String, BackupError>)
        ensures
            listed@.len() == 0 ==> (r matches Err(BackupError::NoBackupAvailable(p)) && p@ == path@),
            listed@.len() > 0 ==> (r matches Ok(p) && p@ == listed@[0].path@),
    {
        if listed.len() == 0 {
            return Err(BackupError::NoBackupAvailable(copy_str(path)));
        }
        Ok(copy_str(listed[0].path.as_str()))
    }
}

/// What stays of a listing, newest first, after pruning to `max`.
pub open spec fn retained(listed: Seq<BackupEntry>, max: nat) -> Seq<BackupEntry> {
    if listed.len() <= max { listed } else { listed.subrange(0, max as int) }
}

/// Pruning a newest-first listing keeps exactly the `max` most recent backups:
/// as many as there are up to `max`, and none older than one that was removed.
pub proof fn pruning_keeps_most_recent(listed: Seq<BackupEntry>, max: nat)
    requires
        newest_first(listed),
    ensures
        retained(listed, max).len() == if listed.len() <= max { listed.len() } else { max },
        forall|i: int, j: int| 0 <= i < retained(listed, max).len() && max <= j < listed.len()
            ==> retained(listed, max)[i].modified >= listed[j].modified,
        newest_first(retained(listed, max)),
{
}

} // verus!
