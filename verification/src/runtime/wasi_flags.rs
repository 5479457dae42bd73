//! What a sandbox may see of the host: the egress check and the directories
//! opened for the guest.

use vstd::prelude::*;

verus! {

/// What a guest may do with a directory opened for it.
#[derive(Clone, Copy, Debug, PartialEq, Eq, Structural)]
pub struct DirPerms {
    pub read: bool,
    pub mutate: bool,
}

impl DirPerms {
    /// Every permission.
    pub fn all() -> (p: DirPerms)
        ensures
            p == (DirPerms { read: true, mutate: true }),
    {
        DirPerms { read: true, mutate: true }
    }

    /// No permission.
    pub fn empty() -> (p: DirPerms)
        ensures
            p == (DirPerms { read: false, mutate: false }),
    {
        DirPerms { read: false, mutate: false }
    }

    /// The permissions as a bit set: bit 0 for reading, bit 1 for mutating.
    pub open spec fn spec_bits(self) -> nat {
        (if self.read { 1nat } else { 0nat }) + (if self.mutate { 2nat } else { 0nat })
    }

    /// The permissions as a bit set: bit 0 for reading, bit 1 for mutating.
    pub fn bits(&self) -> (b: usize)
        ensures
            b == self.spec_bits(),
    {
        let low: usize = if self.read { 1 } else { 0 };
        let high: usize = if self.mutate { 2 } else { 0 };
        low + high
    }
}

/// What a guest may do with the files in a directory opened for it.
#[derive(Clone, Copy, Debug, PartialEq, Eq, Structural)]
pub struct FilePerms {
    pub read: bool,
    pub write: bool,
}

impl FilePerms {
    /// Every permission.
    pub fn all() -> (p: FilePerms)
        ensures
            p == (FilePerms { read: true, write: true }),
    {
        FilePerms { read: true, write: true }
    }

    /// No permission.
    pub fn empty() -> (p: FilePerms)
        ensures
            p == (FilePerms { read: false, write: false }),
    {
        FilePerms { read: false, write: false }
    }

    /// The permissions as a bit set: bit 0 for reading, bit 1 for writing.
    pub open spec fn spec_bits(self) -> nat {
        (if self.read { 1nat } else { 0nat }) + (if self.write { 2nat } else { 0nat })
    }

    /// The permissions as a bit set: bit 0 for reading, bit 1 for writing.
    pub fn bits(&self) -> (b: usize)
        ensures
            b == self.spec_bits(),
    {
        let low: usize = if self.read { 1 } else { 0 };
        let high: usize = if self.write { 2 } else { 0 };
        low + high
    }
}

/// One host directory opened for the guest.
#[derive(Debug)]
pub struct PreopenedDir {
    pub host_path: String,
    pub guest_path: String,
    pub dir_perms: DirPerms,
    pub file_perms: FilePerms,
}

/// A [`PreopenedDir`] with its paths as sequences of characters.
pub struct PreopenedDirView {
    pub host_path: Seq<char>,
    pub guest_path: Seq<char>,
    pub dir_perms: DirPerms,
    pub file_perms: FilePerms,
}

impl View for PreopenedDir {
    type V = PreopenedDirView;

    open spec fn view(&self) -> PreopenedDirView {
        PreopenedDirView {
            host_path: self.host_path@,
            guest_path: self.guest_path@,
            dir_perms: self.dir_perms,
            file_perms: self.file_perms,
        }
    }
}

impl PreopenedDir {
    /// A copy with the same paths and permissions.
    pub fn duplicate(&self) -> (copy: PreopenedDir)
        ensures
            copy@ == self@,
    {
        PreopenedDir {
            host_path: self.host_path.clone(),
            guest_path: self.guest_path.clone(),
            dir_perms: self.dir_perms,
            file_perms: self.file_perms,
        }
    }
}

/// The views of a sequence of directories, in the same order.
pub open spec fn dir_views(dirs: Seq<PreopenedDir>) -> Seq<PreopenedDirView> {
    dirs.map_values(|d: PreopenedDir| d@)
}

/// Whether no two entries name the same host path.
pub open spec fn distinct_hosts(dirs: Seq<PreopenedDirView>) -> bool {
    forall|i: int, j: int|
        0 <= i < dirs.len() && 0 <= j < dirs.len() && i != j ==> dirs[i].host_path
            != dirs[j].host_path
}

/// Whether some entry names `host`.
pub open spec fn has_host(dirs: Seq<PreopenedDirView>, host: Seq<char>) -> bool {
    exists|i: int| 0 <= i < dirs.len() && #[trigger] dirs[i].host_path == host
}

/// The place of the entry that names `host`, where there is one.
pub open spec fn host_index(dirs: Seq<PreopenedDirView>, host: Seq<char>) -> int {
    choose|i: int| 0 <= i < dirs.len() && #[trigger] dirs[i].host_path == host
}

/// Host directories to open for a guest, keyed by host path: each host path
/// occurs once, and entries stay in the order in which their paths were
/// first inserted.
#[derive(Debug)]
pub struct FileMapper {
    entries: Vec<PreopenedDir>,
}

impl View for FileMapper {
    type V = Seq<PreopenedDirView>;

    closed spec fn view(&self) -> Seq<PreopenedDirView> {
        dir_views(self.entries@)
    }
}

impl FileMapper {
    /// The invariant: no host path occurs twice.
    #[verifier::type_invariant]
    pub open spec fn wf(&self) -> bool {
        distinct_hosts(self@)
    }

    /// An empty mapping.
    pub fn new() -> (mapper: FileMapper)
        ensures
            mapper.wf(),
            mapper@.len() == 0,
    {
        FileMapper { entries: Vec::new() }
    }

    /// How many directories are mapped.
    pub fn len(&self) -> (n: usize)
        ensures
            n == self@.len(),
    {
        self.entries.len()
    }

    /// The entries, in order.
    pub fn entries(&self) -> (dirs: &Vec<PreopenedDir>)
        ensures
            dir_views(dirs@) == self@,
    {
        &self.entries
    }

    /// Where `host` is mapped, if it is.
    pub fn position(&self, host: &str) -> (at: Option<usize>)
        ensures
            at is Some <==> has_host(self@, host@),
            at matches Some(i) ==> i < self@.len() && self@[i as int].host_path == host@,
    {
        let mut i: usize = 0;
        while i < self.entries.len()
            invariant
                i <= self.entries.len(),
                forall|j: int| 0 <= j < i ==> (#[trigger] self@[j]).host_path != host@,
            decreases self.entries.len() - i,
        {
            if str_eq(self.entries[i].host_path.as_str(), host) {
                assert(self@[i as int].host_path == host@);
                return Some(i);
            }
            i += 1;
        }
        None
    }

    /// Maps `host` to `guest`: a guest path with the permissions on the
    /// directory and on its files. Where `host` was mapped before, the new
    /// mapping takes the place of the old one, which is returned.
    pub fn insert(
        &mut self,
        host: String,
        guest: (String, DirPerms, FilePerms),
    ) -> (previous: Option<(String, DirPerms, FilePerms)>)
        ensures
            final(self).wf(),
            has_host(old(self)@, host@) ==> {
                let i = host_index(old(self)@, host@);
                &&& final(self)@ == old(self)@.update(
                    i,
                    (PreopenedDirView {
                        host_path: host@,
                        guest_path: guest.0@,
                        dir_perms: guest.1,
                        file_perms: guest.2,
                    }),
                )
                &&& previous matches Some(p)
                &&& p.0@ == old(self)@[i].guest_path
                &&& p.1 == old(self)@[i].dir_perms
                &&& p.2 == old(self)@[i].file_perms
            },
            !has_host(old(self)@, host@) ==> {
                &&& final(self)@ == old(self)@.push(
                    (PreopenedDirView {
                        host_path: host@,
                        guest_path: guest.0@,
                        dir_perms: guest.1,
                        file_perms: guest.2,
                    }),
                )
                &&& previous is None
            },
    {
        proof {
            use_type_invariant(&*self);
        }
        let at = self.position(host.as_str());
        let entry = PreopenedDir {
            host_path: host,
            guest_path: guest.0,
            dir_perms: guest.1,
            file_perms: guest.2,
        };
        let ghost added = entry@;
        let mut entries: Vec<PreopenedDir> = Vec::new();
        std::mem::swap(&mut self.entries, &mut entries);
        let previous = match at {
            Some(i) => {
                let replaced = entries.remove(i);
                entries.insert(i, entry);
                assert(dir_views(entries@) =~= old(self)@.update(i as int, added));
                Some((replaced.guest_path, replaced.dir_perms, replaced.file_perms))
            },
            None => {
                entries.push(entry);
                assert(dir_views(entries@) =~= old(self)@.push(added));
                None
            },
        };
        std::mem::swap(&mut self.entries, &mut entries);
        previous
    }
}

/// The switches of a sandbox's host interface.
#[derive(Debug)]
pub struct WasiFlags {
    /// `Some` where the guest's socket addresses are checked against the
    /// egress policy.
    pub socket_addr_check: Option<()>,
    /// The host directories opened for the guest, if any.
    pub file_mapper: Option<FileMapper>,
}

impl WasiFlags {
    /// Flags with the given egress switch and directory mapping.
    pub fn new(socket_addr_check: Option<()>, file_mapper: Option<FileMapper>) -> (flags: WasiFlags)
        ensures
            flags.socket_addr_check == socket_addr_check,
            flags.file_mapper == file_mapper,
    {
        WasiFlags { socket_addr_check, file_mapper }
    }

    /// Whether the egress check is switched on.
    pub open spec fn checks_egress(&self) -> bool {
        self.socket_addr_check is Some
    }

    /// The directories opened for the guest, in order; none where no
    /// mapping was given.
    pub open spec fn preopened(&self) -> Seq<PreopenedDirView> {
        match self.file_mapper {
            Some(mapper) => mapper@,
            None => Seq::empty(),
        }
    }
}

impl Default for WasiFlags {
    /// The egress check switched on, and no directory opened.
    fn default() -> (flags: WasiFlags)
        ensures
            flags.socket_addr_check == Some(()),
            flags.file_mapper is None,
    {
        WasiFlags { socket_addr_check: Some(()), file_mapper: None }
    }
}

/// Whether two strings hold the same characters.
pub fn str_eq(left: &str, right: &str) -> (same: bool)
    ensures
        same == (left@ == right@),
{
    let a = left.to_owned();
    let b = right.to_owned();
    a == b
}

} // verus!
