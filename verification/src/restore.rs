//! The restore step of a drill: copying a completed backup into a private
//! directory, refusing anything that is not a standalone, stable SQLite
//! file. The caller does the file work each action asks for and hands back
//! what happened; the decisions and messages are made here.

use vstd::prelude::*;
use vstd::string::*;

use crate::duration::Moment;
use crate::text::{concat, concat3, with_context};

verus! {

/// The result of one piece of outside work that the caller reports back.
pub enum Progress<A, T> {
    /// Do this next.
    Continue(A),
    /// The step is over, with this outcome.
    Complete(Result<T, String>),
}

/// What looking for a file next to the backup found.
#[derive(Debug)]
pub enum Probe {
    Missing,
    Present,
    Failed(String),
}

/// Metadata of the source file: its length, and its modification time where
/// the platform gives one.
#[derive(Debug)]
pub struct FileStat {
    pub len: u64,
    pub modified: Result<Moment, String>,
}

/// What a completed restore copied.
#[derive(Clone, Copy, Debug, PartialEq, Eq, Structural)]
pub struct Snapshot {
    pub bytes: u64,
    pub modified: Moment,
}

/// File work that the restore asks for.
#[derive(Debug)]
pub enum RestoreAction {
    /// Resolve the backup path to its canonical form.
    Canonicalize { path: String },
    /// Tell whether the canonical path is a regular file.
    Inspect { path: String },
    /// Look for a file at this path, without following links.
    Probe { path: String },
    /// Open the source for reading.
    Open { path: String },
    /// Read the open source's metadata.
    Stat,
    /// Read exactly the first 16 bytes of the source.
    ReadHeader,
    /// Seek the source back to its start.
    Rewind,
    /// Create the restored file; it must not exist yet.
    CreateTarget,
    /// Copy the source into the restored file.
    Copy,
    /// Flush the restored file to disk.
    Sync,
    /// Read the open source's metadata again.
    Restat,
}

/// Where a restore stands.
#[derive(Clone, Copy, Debug, PartialEq, Eq, Structural)]
pub enum RestorePhase {
    Canonicalize,
    Inspect,
    /// Looking for the sidecar at `index` (of `-wal`, `-shm`, `-journal`),
    /// before the copy or, where `after_copy`, after it.
    Sidecar { after_copy: bool, index: usize },
    Open,
    Stat,
    Header,
    Rewind,
    Create,
    Copy,
    Sync,
    Restat,
}

/// The files SQLite keeps beside a live database.
pub open spec fn sidecar_suffix(index: int) -> Seq<char> {
    if index == 0 {
        "-wal"@
    } else if index == 1 {
        "-shm"@
    } else {
        "-journal"@
    }
}

/// The path of a sidecar of a database file.
pub open spec fn sidecar_path(path: Seq<char>, index: int) -> Seq<char> {
    path + sidecar_suffix(index)
}

/// The first sixteen bytes of every SQLite 3 database: `SQLite format 3\0`.
pub open spec fn sqlite_magic() -> Seq<u8> {
    seq![83u8, 81, 76, 105, 116, 101, 32, 102, 111, 114, 109, 97, 116, 32, 51, 0]
}

/// The message for a sidecar that was found.
pub open spec fn sidecar_found_message(path: Seq<char>) -> Seq<char> {
    "found "@ + path
        + "; use a completed standalone backup made with SQLite's backup API, .backup, or VACUUM INTO"@
}

/// Whether a completed restore copied exactly `len` bytes.
pub open spec fn s_bytes_is_length<A>(p: Progress<A, Snapshot>, len: u64) -> bool {
    p matches Progress::Complete(Ok(s)) && s.bytes == len
}

/// Whether a progress report ends the restore with this failure message.
pub open spec fn fails_with<A, T>(p: Progress<A, T>, message: Seq<char>) -> bool {
    p matches Progress::Complete(Err(m)) && m@ == message
}

/// The restore of one backup.
pub struct Restoration {
    source: String,
    canonical: String,
    phase: RestorePhase,
    before: u64,
    modified: Moment,
    copied: u64,
    /// The sidecar paths looked for and found missing, in order.
    missing: Ghost<Seq<Seq<char>>>,
    /// The header read from the source.
    header: Ghost<Seq<u8>>,
    /// The source length and modification time read after the copy.
    after: Ghost<(u64, Moment)>,
}

/// The three sidecar paths of a database file.
pub open spec fn sidecar_paths(path: Seq<char>) -> Seq<Seq<char>> {
    seq![sidecar_path(path, 0), sidecar_path(path, 1), sidecar_path(path, 2)]
}

fn sidecar(path: &str, index: usize) -> (p: String)
    requires
        index < 3,
    ensures
        p@ == sidecar_path(path@, index as int),
{
    if index == 0 {
        concat(path, "-wal")
    } else if index == 1 {
        concat(path, "-shm")
    } else {
        concat(path, "-journal")
    }
}

fn is_sqlite_magic(header: &Vec<u8>) -> (r: bool)
    ensures
        r == (header@ == sqlite_magic()),
{
    let magic: Vec<u8> = vec![83u8, 81, 76, 105, 116, 101, 32, 102, 111, 114, 109, 97, 116, 32, 51, 0];
    assert(magic@ =~= sqlite_magic());
    if header.len() != magic.len() {
        return false;
    }
    let mut i: usize = 0;
    while i < magic.len()
        invariant
            magic@ == sqlite_magic(),
            header.len() == magic.len(),
            i <= magic.len(),
            forall|k: int| 0 <= k < i ==> header@[k] == magic@[k],
        decreases magic.len() - i,
    {
        if header[i] != magic[i] {
            return false;
        }
        i = i + 1;
    }
    assert(header@ =~= magic@);
    true
}

impl Restoration {
    /// The backup path being restored.
    pub closed spec fn source(&self) -> Seq<char> {
        self.source@
    }

    /// The canonical path of the backup, once resolved.
    pub closed spec fn canonical(&self) -> Seq<char> {
        self.canonical@
    }

    /// Where the restore stands.
    pub closed spec fn phase(&self) -> RestorePhase {
        self.phase
    }

    /// The source length read before the copy.
    pub closed spec fn length_before(&self) -> u64 {
        self.before
    }

    /// The source modification time read before the copy.
    pub closed spec fn modified_before(&self) -> Moment {
        self.modified
    }

    /// The number of bytes copied.
    pub closed spec fn copied(&self) -> u64 {
        self.copied
    }

    /// The sidecar paths looked for so far and found missing.
    pub closed spec fn missing_sidecars(&self) -> Seq<Seq<char>> {
        self.missing@
    }

    /// The source length and modification time read after the copy.
    pub closed spec fn stat_after(&self) -> (u64, Moment) {
        self.after@
    }

    /// The header read from the source, once read.
    pub closed spec fn header_read(&self) -> Seq<u8> {
        self.header@
    }

    /// Whether the restore is in a state its methods accept.
    pub closed spec fn wf(&self) -> bool {
        let sidecars = sidecar_paths(self.canonical@);
        &&& self.phase matches RestorePhase::Sidecar { index, .. } ==> index < 3
        &&& (self.phase == RestorePhase::Canonicalize || self.phase == RestorePhase::Inspect)
            ==> self.missing@.len() == 0
        &&& self.phase matches RestorePhase::Sidecar { after_copy, index } ==> self.missing@ == if after_copy {
            sidecars + sidecars.take(index as int)
        } else {
            sidecars.take(index as int)
        }
        &&& (self.phase == RestorePhase::Open || self.phase == RestorePhase::Stat || self.phase
            == RestorePhase::Header || self.phase == RestorePhase::Rewind || self.phase
            == RestorePhase::Create || self.phase == RestorePhase::Copy || self.phase
            == RestorePhase::Sync || self.phase == RestorePhase::Restat) ==> self.missing@
            == sidecars
        &&& (self.phase == RestorePhase::Rewind || self.phase == RestorePhase::Create
            || self.phase == RestorePhase::Copy || self.phase == RestorePhase::Sync || self.phase
            == RestorePhase::Restat || self.phase matches RestorePhase::Sidecar {
            after_copy: true,
            ..
        }) ==> self.header@ == sqlite_magic()
        &&& self.phase matches RestorePhase::Sidecar { after_copy: true, .. } ==> self.copied
            == self.before && self.after@ == (self.before, self.modified)
    }

    /// Starts restoring the backup at `source`: first resolve its path.
    pub fn new(source: String) -> (r: (Restoration, RestoreAction))
        ensures
            r.0.wf(),
            r.0.phase() == RestorePhase::Canonicalize,
            r.0.source() == source@,
            r.1 matches RestoreAction::Canonicalize { path } && path@ == source@,
    {
        let path = source.clone();
        (
            Restoration {
                source,
                canonical: String::new(),
                phase: RestorePhase::Canonicalize,
                before: 0,
                modified: Moment { secs: 0, nanos: 0 },
                copied: 0,
                missing: Ghost(Seq::empty()),
                header: Ghost(Seq::empty()),
                after: Ghost((0, Moment { secs: 0, nanos: 0 })),
            },
            RestoreAction::Canonicalize { path },
        )
    }

    /// The canonical path, or why it could not be found.
    pub fn on_canonical(&mut self, resolved: Result<String, String>) -> (p: Progress<
        RestoreAction,
        Snapshot,
    >)
        requires
            old(self).wf(),
            old(self).phase() == RestorePhase::Canonicalize,
        ensures
            final(self).wf(),
            final(self).source() == old(self).source(),
            match resolved {
                Ok(c) => final(self).phase() == RestorePhase::Inspect && final(self).canonical()
                    == c@ && (p matches Progress::Continue(RestoreAction::Inspect { path }) && path@
                    == c@),
                Err(e) => fails_with(p, "cannot find backup "@ + old(self).source() + ": "@ + e@),
            },
    {
        match resolved {
            Ok(c) => {
                let path = c.clone();
                self.canonical = c;
                self.phase = RestorePhase::Inspect;
                Progress::Continue(RestoreAction::Inspect { path })
            },
            Err(e) => {
                let context = concat("cannot find backup ", self.source.as_str());
                Progress::Complete(Err(with_context(context.as_str(), e.as_str())))
            },
        }
    }

    /// Whether the canonical path is a regular file.
    pub fn on_kind(&mut self, is_file: Result<bool, String>) -> (p: Progress<
        RestoreAction,
        Snapshot,
    >)
        requires
            old(self).wf(),
            old(self).phase() == RestorePhase::Inspect,
        ensures
            final(self).wf(),
            final(self).source() == old(self).source(),
            final(self).canonical() == old(self).canonical(),
            match is_file {
                Ok(true) => final(self).phase() == (RestorePhase::Sidecar {
                    after_copy: false,
                    index: 0,
                }) && (p matches Progress::Continue(RestoreAction::Probe { path }) && path@
                    == sidecar_path(old(self).canonical(), 0)),
                Ok(false) => fails_with(p, "backup must be a regular file"@),
                Err(e) => fails_with(p, e@),
            },
    {
        match is_file {
            Ok(true) => {
                assert(self.missing@ =~= sidecar_paths(self.canonical@).take(0));
                self.phase = RestorePhase::Sidecar { after_copy: false, index: 0 };
                Progress::Continue(RestoreAction::Probe { path: sidecar(self.canonical.as_str(), 0) })
            },
            Ok(false) => Progress::Complete(Err(String::from_str("backup must be a regular file"))),
            Err(e) => Progress::Complete(Err(e)),
        }
    }

    /// What was found at the sidecar path last asked for. Each of `-wal`,
    /// `-shm` and `-journal` is looked for before the copy and again after.
    pub fn on_probe(&mut self, found: Probe) -> (p: Progress<RestoreAction, Snapshot>)
        requires
            old(self).wf(),
            old(self).phase() is Sidecar,
        ensures
            final(self).wf(),
            final(self).source() == old(self).source(),
            final(self).canonical() == old(self).canonical(),
            final(self).copied() == old(self).copied(),
            final(self).modified_before() == old(self).modified_before(),
            final(self).length_before() == old(self).length_before(),
            ({
                let index = old(self).phase()->index as int;
                let after_copy = old(self).phase()->after_copy;
                let here = sidecar_path(old(self).canonical(), index);
                match found {
                    Probe::Present => fails_with(p, sidecar_found_message(here)),
                    Probe::Failed(e) => fails_with(p, "cannot inspect "@ + here + ": "@ + e@),
                    Probe::Missing => if index < 2 {
                        final(self).phase() == (RestorePhase::Sidecar {
                            after_copy,
                            index: (index + 1) as usize,
                        }) && (p matches Progress::Continue(RestoreAction::Probe { path }) && path@
                            == sidecar_path(old(self).canonical(), index + 1))
                    } else if !after_copy {
                        final(self).phase() == RestorePhase::Open && (p matches Progress::Continue(
                            RestoreAction::Open { path },
                        ) && path@ == old(self).canonical())
                    } else {
                        (p matches Progress::Complete(Ok(s)) && s == (Snapshot {
                            bytes: old(self).copied(),
                            modified: old(self).modified_before(),
                        })) && s_bytes_is_length(p, old(self).length_before())
                            && old(self).header_read() == sqlite_magic()
                            && old(self).stat_after() == (old(self).length_before(), old(self).modified_before())
                            && old(self).missing_sidecars().push(here) == sidecar_paths(
                            old(self).canonical(),
                        ) + sidecar_paths(old(self).canonical())
                    },
                }
            }),
    {
        let (after_copy, index) = match self.phase {
            RestorePhase::Sidecar { after_copy, index } => (after_copy, index),
            _ => (false, 0),
        };
        let here = sidecar(self.canonical.as_str(), index);
        match found {
            Probe::Present => {
                let mut m = concat("found ", here.as_str());
                m.append(
                    "; use a completed standalone backup made with SQLite's backup API, .backup, or VACUUM INTO",
                );
                Progress::Complete(Err(m))
            },
            Probe::Failed(e) => {
                let context = concat("cannot inspect ", here.as_str());
                Progress::Complete(Err(with_context(context.as_str(), e.as_str())))
            },
            Probe::Missing => {
                let ghost sidecars = sidecar_paths(self.canonical@);
                assert(here@ == sidecars[index as int]) by {
                    if index == 0 {
                    } else if index == 1 {
                    } else {
                    }
                }
                assert(sidecars.take(index + 1) =~= sidecars.take(index as int).push(here@));
                assert(sidecars.take(3) =~= sidecars);
                assert((sidecars + sidecars.take(index as int)).push(here@) =~= sidecars
                    + sidecars.take(index + 1));
                if index < 2 || !after_copy {
                    self.missing = Ghost(self.missing@.push(here@));
                }
                if index < 2 {
                    self.phase = RestorePhase::Sidecar { after_copy, index: index + 1 };
                    Progress::Continue(
                        RestoreAction::Probe { path: sidecar(self.canonical.as_str(), index + 1) },
                    )
                } else if !after_copy {
                    self.phase = RestorePhase::Open;
                    Progress::Continue(RestoreAction::Open { path: self.canonical.clone() })
                } else {
                    Progress::Complete(Ok(Snapshot { bytes: self.copied, modified: self.modified }))
                }
            },
        }
    }

    /// Whether the source could be opened for reading.
    pub fn on_opened(&mut self, opened: Result<(), String>) -> (p: Progress<
        RestoreAction,
        Snapshot,
    >)
        requires
            old(self).wf(),
            old(self).phase() == RestorePhase::Open,
        ensures
            final(self).wf(),
            final(self).canonical() == old(self).canonical(),
            match opened {
                Ok(_) => final(self).phase() == RestorePhase::Stat && (p matches Progress::Continue(RestoreAction::Stat)),
                Err(e) => fails_with(p, "cannot read backup"@ + ": "@ + e@),
            },
    {
        match opened {
            Ok(_) => {
                self.phase = RestorePhase::Stat;
                Progress::Continue(RestoreAction::Stat)
            },
            Err(e) => Progress::Complete(Err(with_context("cannot read backup", e.as_str()))),
        }
    }

    /// The source's metadata, read before the copy or, in the `Restat`
    /// phase, after it. After the copy, the number of bytes copied, the
    /// length before and after, and the modification time before and after
    /// must all agree, or the backup changed while it was copied.
    pub fn on_stat(&mut self, stat: Result<FileStat, String>) -> (p: Progress<
        RestoreAction,
        Snapshot,
    >)
        requires
            old(self).wf(),
            old(self).phase() == RestorePhase::Stat || old(self).phase() == RestorePhase::Restat,
        ensures
            final(self).wf(),
            final(self).canonical() == old(self).canonical(),
            final(self).copied() == old(self).copied(),
            old(self).phase() == RestorePhase::Stat ==> match stat {
                Ok(s) => match s.modified {
                    Ok(t) => final(self).phase() == RestorePhase::Header && final(self).length_before() == s.len && final(self).modified_before() == t && (
                    p matches Progress::Continue(RestoreAction::ReadHeader)),
                    Err(e) => fails_with(p, "cannot read backup modification time"@ + ": "@ + e@),
                },
                Err(e) => fails_with(p, e@),
            },
            old(self).phase() == RestorePhase::Restat ==> match stat {
                Ok(s) => if !(old(self).copied() == old(self).length_before()
                    && old(self).length_before() == s.len) {
                    fails_with(p, "backup changed during the restore; use a completed snapshot"@)
                } else {
                    match s.modified {
                        Ok(t) => if old(self).modified_before() == t {
                            final(self).phase() == (RestorePhase::Sidecar {
                                after_copy: true,
                                index: 0,
                            }) && final(self).length_before() == old(self).length_before()
                                && final(self).modified_before() == old(self).modified_before() && (
                            p matches Progress::Continue(RestoreAction::Probe { path }) && path@
                                == sidecar_path(old(self).canonical(), 0))
                        } else {
                            fails_with(
                                p,
                                "backup changed during the restore; use a completed snapshot"@,
                            )
                        },
                        Err(e) => fails_with(p, e@),
                    }
                },
                Err(e) => fails_with(p, e@),
            },
    {
        match stat {
            Err(e) => Progress::Complete(Err(e)),
            Ok(s) => {
                if self.phase == RestorePhase::Stat {
                    match s.modified {
                        Ok(t) => {
                            self.before = s.len;
                            self.modified = t;
                            self.phase = RestorePhase::Header;
                            Progress::Continue(RestoreAction::ReadHeader)
                        },
                        Err(e) => Progress::Complete(
                            Err(with_context("cannot read backup modification time", e.as_str())),
                        ),
                    }
                } else if !(self.copied == self.before && self.before == s.len) {
                    Progress::Complete(
                        Err(
                            String::from_str(
                                "backup changed during the restore; use a completed snapshot",
                            ),
                        ),
                    )
                } else {
                    match s.modified {
                        Ok(t) => {
                            if self.modified == t {
                                self.after = Ghost((s.len, t));
                                self.phase = RestorePhase::Sidecar { after_copy: true, index: 0 };
                                Progress::Continue(
                                    RestoreAction::Probe {
                                        path: sidecar(self.canonical.as_str(), 0),
                                    },
                                )
                            } else {
                                Progress::Complete(
                                    Err(
                                        String::from_str(
                                            "backup changed during the restore; use a completed snapshot",
                                        ),
                                    ),
                                )
                            }
                        },
                        Err(e) => Progress::Complete(Err(e)),
                    }
                }
            },
        }
    }

    /// The first bytes of the source, which must be the SQLite 3 header.
    pub fn on_header(&mut self, header: Result<Vec<u8>, String>) -> (p: Progress<
        RestoreAction,
        Snapshot,
    >)
        requires
            old(self).wf(),
            old(self).phase() == RestorePhase::Header,
        ensures
            final(self).wf(),
            final(self).canonical() == old(self).canonical(),
            final(self).length_before() == old(self).length_before(),
            final(self).modified_before() == old(self).modified_before(),
            match header {
                Ok(h) => if h@ == sqlite_magic() {
                    final(self).phase() == RestorePhase::Rewind && (p matches Progress::Continue(RestoreAction::Rewind))
                } else {
                    fails_with(
                        p,
                        "backup does not have a SQLite 3 header; expected an uncompressed SQLite snapshot"@,
                    )
                },
                Err(e) => fails_with(
                    p,
                    "backup is empty or truncated; expected a SQLite database"@ + ": "@ + e@,
                ),
            },
    {
        match header {
            Ok(h) => {
                self.header = Ghost(h@);
                if is_sqlite_magic(&h) {
                    self.phase = RestorePhase::Rewind;
                    Progress::Continue(RestoreAction::Rewind)
                } else {
                    Progress::Complete(
                        Err(
                            String::from_str(
                                "backup does not have a SQLite 3 header; expected an uncompressed SQLite snapshot",
                            ),
                        ),
                    )
                }
            },
            Err(e) => Progress::Complete(
                Err(
                    with_context(
                        "backup is empty or truncated; expected a SQLite database",
                        e.as_str(),
                    ),
                ),
            ),
        }
    }

    /// Whether the work of the `Rewind`, `Create` or `Sync` phase succeeded.
    pub fn on_done(&mut self, done: Result<(), String>) -> (p: Progress<RestoreAction, Snapshot>)
        requires
            old(self).wf(),
            old(self).phase() == RestorePhase::Rewind || old(self).phase() == RestorePhase::Create
                || old(self).phase() == RestorePhase::Sync,
        ensures
            final(self).wf(),
            final(self).canonical() == old(self).canonical(),
            final(self).length_before() == old(self).length_before(),
            final(self).modified_before() == old(self).modified_before(),
            final(self).copied() == old(self).copied(),
            match done {
                Ok(_) => if old(self).phase() == RestorePhase::Rewind {
                    final(self).phase() == RestorePhase::Create && (p matches Progress::Continue(RestoreAction::CreateTarget))
                } else if old(self).phase() == RestorePhase::Create {
                    final(self).phase() == RestorePhase::Copy && (p matches Progress::Continue(RestoreAction::Copy))
                } else {
                    final(self).phase() == RestorePhase::Restat && (p matches Progress::Continue(RestoreAction::Restat))
                },
                Err(e) => fails_with(p, e@),
            },
    {
        match done {
            Err(e) => Progress::Complete(Err(e)),
            Ok(_) => {
                if self.phase == RestorePhase::Rewind {
                    self.phase = RestorePhase::Create;
                    Progress::Continue(RestoreAction::CreateTarget)
                } else if self.phase == RestorePhase::Create {
                    self.phase = RestorePhase::Copy;
                    Progress::Continue(RestoreAction::Copy)
                } else {
                    self.phase = RestorePhase::Restat;
                    Progress::Continue(RestoreAction::Restat)
                }
            },
        }
    }

    /// The number of bytes copied into the restored file.
    pub fn on_copied(&mut self, copied: Result<u64, String>) -> (p: Progress<
        RestoreAction,
        Snapshot,
    >)
        requires
            old(self).wf(),
            old(self).phase() == RestorePhase::Copy,
        ensures
            final(self).wf(),
            final(self).canonical() == old(self).canonical(),
            final(self).length_before() == old(self).length_before(),
            final(self).modified_before() == old(self).modified_before(),
            match copied {
                Ok(n) => final(self).phase() == RestorePhase::Sync && final(self).copied() == n
                    && (p matches Progress::Continue(RestoreAction::Sync)),
                Err(e) => fails_with(p, "cannot restore backup; check available disk space"@ + ": "@ + e@),
            },
    {
        match copied {
            Ok(n) => {
                self.copied = n;
                self.phase = RestorePhase::Sync;
                Progress::Continue(RestoreAction::Sync)
            },
            Err(e) => Progress::Complete(
                Err(with_context("cannot restore backup; check available disk space", e.as_str())),
            ),
        }
    }
}

/// The detail recorded for a successful restore.
pub open spec fn restored_detail(bytes: u64) -> Seq<char> {
    "Restored "@ + crate::text::decimal(bytes as nat) + " bytes into a temporary directory."@
}

/// The detail recorded for a successful restore.
pub fn restored_message(bytes: u64) -> (m: String)
    ensures
        m@ == restored_detail(bytes),
{
    let n = crate::text::decimal_text(bytes);
    concat3("Restored ", n.as_str(), " bytes into a temporary directory.")
}

} // verus!
