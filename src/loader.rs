use vstd::prelude::*;

use crate::binary::{normalize_binary, normalized, opt_bytes, binary_kind, BinaryKind};
use crate::error::LoadError;
use crate::source::{file_url_path, join_path, join_path_exec, parse_file_url};
use crate::world::{adapt_old_worlds_to_new, adaptation_view, composed_verdict, world_adaptation, Adaptation, TargetWorld};

verus! {

/// Access granted to the guest on a mounted directory.
#[derive(Debug, Clone, Copy, PartialEq, Eq, Structural)]
pub enum AccessMode {
    ReadOnly,
    ReadWrite,
}

/// A file-mount entry of a component: the content reference of the host
/// directory, if present, and the path at which the guest sees it.
pub struct FileMount {
    pub source: Option<String>,
    pub path: String,
}

/// A preopen directive for the sandbox: a host directory, the guest path it
/// appears under, and the access mode.
pub struct PreopenDir {
    pub host_path: String,
    pub guest_path: String,
    pub mode: AccessMode,
}

/// A preopen directive as plain values.
pub open spec fn preopen_view(p: PreopenDir) -> (Seq<char>, Seq<char>, AccessMode) {
    (p.host_path@, p.guest_path@, p.mode)
}

/// The local path named by an optional content reference.
pub open spec fn source_path(source: Option<String>) -> Result<Seq<char>, LoadError> {
    match source {
        None => Err(LoadError::MissingSourceField),
        Some(s) => match file_url_path(s@) {
            None => Err(LoadError::InvalidSource),
            Some(p) => Ok(p),
        },
    }
}

/// Resolves the `source` reference of a descriptor entry to a local path:
/// `MissingSourceField` where there is none, `InvalidSource` where it is not
/// a local file reference.
pub fn locked_source_path(source: &Option<String>) -> (r: Result<String, LoadError>)
    ensures
        match source_path(*source) {
            Ok(p) => r is Ok && r->Ok_0@ == p,
            Err(e) => r == Err::<String, LoadError>(e),
        },
{
    match source {
        None => Err(LoadError::MissingSourceField),
        Some(s) => parse_file_url(s.as_str()),
    }
}

/// The loader's configuration: the working directory against which mount
/// sources are resolved, and whether mounted directories are writable.
pub struct TriggerLoader {
    working_dir: String,
    allow_transient_write: bool,
}

/// A component binary ready for compilation, and whether it was supplied as a
/// component rather than produced from a core module.
pub struct PreparedComponent {
    pub binary: Adaptation,
    pub already_component: bool,
}

impl TriggerLoader {
    /// The configured working directory.
    pub closed spec fn spec_working_dir(self) -> Seq<char> {
        self.working_dir@
    }

    /// Whether mounted directories are writable.
    pub closed spec fn spec_allow_transient_write(self) -> bool {
        self.allow_transient_write
    }

    /// The access mode given to every mount.
    pub open spec fn spec_mode(self) -> AccessMode {
        if self.spec_allow_transient_write() {
            AccessMode::ReadWrite
        } else {
            AccessMode::ReadOnly
        }
    }

    /// The host path of a mount entry, resolved against the working directory.
    pub open spec fn spec_mount_source(self, m: FileMount) -> Result<Seq<char>, LoadError> {
        match source_path(m.source) {
            Ok(p) => Ok(join_path(self.spec_working_dir(), p)),
            Err(e) => Err(e),
        }
    }

    /// The directive for one mount entry, given whether its resolved host path
    /// is a directory.
    pub open spec fn spec_directive(self, m: FileMount, is_dir: bool) -> Result<(Seq<char>, Seq<char>, AccessMode), LoadError> {
        match self.spec_mount_source(m) {
            Err(e) => Err(e),
            Ok(host) => if is_dir {
                Ok((host, m.path@, self.spec_mode()))
            } else {
                Err(LoadError::NotADirectory)
            },
        }
    }

    /// A loader that resolves mount sources against `working_dir` and mounts
    /// directories read-write exactly when `allow_transient_write` is set.
    pub fn new(working_dir: String, allow_transient_write: bool) -> (r: TriggerLoader)
        ensures
            r.spec_working_dir() == working_dir@,
            r.spec_allow_transient_write() == allow_transient_write,
    {
        TriggerLoader { working_dir, allow_transient_write }
    }

    /// The access mode given to every mount.
    pub fn mode(&self) -> (r: AccessMode)
        ensures
            r == self.spec_mode(),
    {
        if self.allow_transient_write {
            AccessMode::ReadWrite
        } else {
            AccessMode::ReadOnly
        }
    }

    /// Resolves the source of a mount entry against the working directory.
    pub fn mount_source(&self, m: &FileMount) -> (r: Result<String, LoadError>)
        ensures
            match self.spec_mount_source(*m) {
                Ok(p) => r is Ok && r->Ok_0@ == p,
                Err(e) => r == Err::<String, LoadError>(e),
            },
    {
        match locked_source_path(&m.source) {
            Ok(p) => Ok(join_path_exec(self.working_dir.as_str(), p.as_str())),
            Err(e) => Err(e),
        }
    }

    /// Registers one preopen directive per mount entry, in order, on
    /// `builder`. `host_is_dir[i]` says whether the resolved source of
    /// `files[i]` is a directory. The first entry that fails stops the walk:
    /// the directives of the entries before it stay registered, and none is
    /// registered for it or after it.
    pub fn mount_files(
        &self,
        builder: &mut Vec<PreopenDir>,
        files: &Vec<FileMount>,
        host_is_dir: &Vec<bool>,
    ) -> (r: Result<(), LoadError>)
        requires
            files.len() == host_is_dir.len(),
        ensures
            r is Ok <==> forall|i: int|
                0 <= i < files.len() ==> (#[trigger] self.spec_directive(files[i], host_is_dir[i])) is Ok,
            r is Ok ==> final(builder).len() == old(builder).len() + files.len(),
            r matches Err(e) ==> exists|k: int|
                0 <= k < files.len()
                && self.spec_directive(files[k], host_is_dir[k]) == Err::<(Seq<char>, Seq<char>, AccessMode), LoadError>(e)
                && (forall|j: int| 0 <= j < k ==> (#[trigger] self.spec_directive(files[j], host_is_dir[j])) is Ok)
                && final(builder).len() == old(builder).len() + k,
            forall|i: int| 0 <= i < old(builder).len() ==> final(builder)[i] == old(builder)[i],
            forall|i: int|
                old(builder).len() <= i < final(builder).len() ==> self.spec_directive(
                    files[i - old(builder).len()],
                    host_is_dir[i - old(builder).len()],
                ) == Ok::<(Seq<char>, Seq<char>, AccessMode), LoadError>(#[trigger] preopen_view(final(builder)[i])),
    {
        let ghost start = builder.len();
        let mut i: usize = 0;
        while i < files.len()
            invariant
                i <= files.len(),
                files.len() == host_is_dir.len(),
                builder.len() == start + i,
                start == old(builder).len(),
                forall|j: int| 0 <= j < start ==> builder[j] == old(builder)[j],
                forall|j: int| 0 <= j < i ==> (#[trigger] self.spec_directive(files[j], host_is_dir[j])) is Ok,
                forall|j: int|
                    start <= j < builder.len() ==> self.spec_directive(files[j - start], host_is_dir[j - start])
                        == Ok::<(Seq<char>, Seq<char>, AccessMode), LoadError>(#[trigger] preopen_view(builder[j])),
            decreases files.len() - i,
        {
            let m = &files[i];
            let host = match self.mount_source(m) {
                Ok(p) => p,
                Err(e) => {
                    assert(self.spec_directive(files[i as int], host_is_dir[i as int]) is Err);
                    return Err(e);
                },
            };
            if !host_is_dir[i] {
                assert(self.spec_directive(files[i as int], host_is_dir[i as int]) is Err);
                return Err(LoadError::NotADirectory);
            }
            let p = PreopenDir { host_path: host, guest_path: m.path.clone(), mode: self.mode() };
            builder.push(p);
            proof {
                assert(preopen_view(builder[start + i]) == preopen_view(p));
            }
            i = i + 1;
        }
        Ok(())
    }

    /// Takes a component source through normalization and then the world
    /// check: `componentized` is what the componentize transform produced for
    /// a core module, `composed` the binary composed with the bridging adapter.
    pub fn prepare_component(
        &self,
        target: &TargetWorld,
        bytes: Vec<u8>,
        componentized: Option<Vec<u8>>,
        composed: Option<Vec<u8>>,
    ) -> (r: Result<PreparedComponent, LoadError>)
        ensures
            prepared_view(r) == component_outcome(*target, bytes@, opt_bytes(componentized), opt_bytes(composed)),
    {
        let n = match normalize_binary(bytes, componentized) {
            Ok(n) => n,
            Err(e) => return Err(e),
        };
        let already = n.already_component;
        match adapt_old_worlds_to_new(target, n.bytes, composed) {
            Ok(b) => Ok(PreparedComponent { binary: b, already_component: already }),
            Err(e) => Err(e),
        }
    }
}

/// Two loaders that differ at most in the write flag produce the same
/// outcome for every mount entry, with the same host and guest paths; only
/// the access mode differs, and it is read-write exactly when the flag is set.
pub proof fn write_flag_only_changes_access_mode(a: TriggerLoader, b: TriggerLoader, m: FileMount, is_dir: bool)
    requires
        a.spec_working_dir() == b.spec_working_dir(),
    ensures
        a.spec_directive(m, is_dir) is Ok <==> b.spec_directive(m, is_dir) is Ok,
        a.spec_directive(m, is_dir) matches Err(e) ==> b.spec_directive(m, is_dir) == Err::<(Seq<char>, Seq<char>, AccessMode), LoadError>(e),
        a.spec_directive(m, is_dir) matches Ok(x) ==> (b.spec_directive(m, is_dir) matches Ok(y) && {
            &&& x.0 == y.0
            &&& x.1 == y.1
            &&& x.2 == a.spec_mode()
            &&& y.2 == b.spec_mode()
        }),
        a.spec_mode() == AccessMode::ReadWrite <==> a.spec_allow_transient_write(),
{
}

/// A prepared component as plain values: whether the binary was adapted,
/// the binary, and whether it was supplied as a component.
pub open spec fn prepared_view(r: Result<PreparedComponent, LoadError>) -> Result<(bool, Seq<u8>, bool), LoadError> {
    match r {
        Ok(p) => match adaptation_view(Ok(p.binary)) {
            Ok((adapted, b)) => Ok((adapted, b, p.already_component)),
            Err(e) => Err(e),
        },
        Err(e) => Err(e),
    }
}

/// The outcome of preparing a component source against the target world
/// `t`: normalization first, then the world check on the normalized binary,
/// given the componentize output and the adapter-composed binary.
pub open spec fn component_outcome(
    t: TargetWorld,
    bytes: Seq<u8>,
    componentized: Option<Seq<u8>>,
    composed: Option<Seq<u8>>,
) -> Result<(bool, Seq<u8>, bool), LoadError> {
    match normalized(bytes, componentized) {
        Err(e) => Err(e),
        Ok((c, already)) => match world_adaptation(t, c, composed) {
            Err(e) => Err(e),
            Ok((adapted, b)) => Ok((adapted, b, already)),
        },
    }
}

/// Preparing the same bytes twice against the same target world takes the
/// same decision: the outcome is fixed by the bytes and the world's verdicts
/// on them, and no other state enters it.
pub proof fn preparation_is_deterministic(
    t: TargetWorld,
    b1: Seq<u8>,
    b2: Seq<u8>,
    componentized: Option<Seq<u8>>,
    composed: Option<Seq<u8>>,
)
    requires
        b1 == b2,
    ensures
        component_outcome(t, b1, componentized, composed) == component_outcome(t, b2, componentized, composed),
        binary_kind(b1) == BinaryKind::Component && t.spec_accepts(b1)
            ==> component_outcome(t, b2, componentized, composed) == Ok::<(bool, Seq<u8>, bool), LoadError>((false, b1, true)),
{
}

/// A component source that already conforms is handed on byte for byte, with
/// no adaptation, and flagged as supplied as a component.
pub proof fn conformant_component_loads_unchanged(
    t: TargetWorld,
    bytes: Seq<u8>,
    componentized: Option<Seq<u8>>,
    composed: Option<Seq<u8>>,
)
    requires
        binary_kind(bytes) == BinaryKind::Component,
        t.spec_accepts(bytes),
    ensures
        component_outcome(t, bytes, componentized, composed) == Ok::<(bool, Seq<u8>, bool), LoadError>((false, bytes, true)),
{
}

/// A core module loads only through its componentized form, and only where
/// that form conforms, directly or once composed with the adapter; where it
/// conforms in neither way, loading fails.
pub proof fn module_loads_only_when_componentized_form_conforms(
    t: TargetWorld,
    bytes: Seq<u8>,
    componentized: Option<Seq<u8>>,
    composed: Option<Seq<u8>>,
)
    requires
        binary_kind(bytes) == BinaryKind::Module,
    ensures
        component_outcome(t, bytes, componentized, composed) is Ok ==> (componentized matches Some(m) && {
            &&& binary_kind(m) == BinaryKind::Component
            &&& t.spec_accepts(m) || composed_verdict(t, composed)
        }),
        componentized matches Some(m) && !t.spec_accepts(m) && !composed_verdict(t, composed)
            ==> component_outcome(t, bytes, componentized, composed) is Err,
{
}

/// Two loaders that differ at most in the write flag stop a walk over the
/// same mounts at the same entry, with the same error: the first failing
/// entry is the same for both.
pub proof fn write_flag_keeps_first_failure(
    a: TriggerLoader,
    b: TriggerLoader,
    files: Seq<FileMount>,
    dirs: Seq<bool>,
    ka: int,
    kb: int,
)
    requires
        a.spec_working_dir() == b.spec_working_dir(),
        files.len() == dirs.len(),
        0 <= ka < files.len(),
        0 <= kb < files.len(),
        a.spec_directive(files[ka], dirs[ka]) is Err,
        b.spec_directive(files[kb], dirs[kb]) is Err,
        forall|j: int| 0 <= j < ka ==> (#[trigger] a.spec_directive(files[j], dirs[j])) is Ok,
        forall|j: int| 0 <= j < kb ==> (#[trigger] b.spec_directive(files[j], dirs[j])) is Ok,
    ensures
        ka == kb,
        a.spec_directive(files[ka], dirs[ka]) == b.spec_directive(files[kb], dirs[kb]),
{
    if ka < kb {
        write_flag_only_changes_access_mode(a, b, files[ka], dirs[ka]);
        assert(b.spec_directive(files[ka], dirs[ka]) is Ok);
    } else if kb < ka {
        write_flag_only_changes_access_mode(a, b, files[kb], dirs[kb]);
        assert(a.spec_directive(files[kb], dirs[kb]) is Ok);
    }
    write_flag_only_changes_access_mode(a, b, files[ka], dirs[ka]);
}

} // verus!
