//! The manifest: an ordered list of declarations, each a source, a
//! destination and the base directory that the destination is relative to.

use vstd::prelude::*;
use crate::machine::Installer;
use crate::machine::InstallerView;
use crate::paths::join;
use crate::paths::joined;

verus! {

/// The base directory that a destination is relative to.
#[derive(Clone, Copy, Debug, PartialEq, Eq, Structural)]
pub enum LocationType {
    Home,
    Config,
}

impl Default for LocationType {
    /// A declaration that names no location is relative to the configuration directory.
    fn default() -> (r: Self)
        ensures
            r == LocationType::Config,
    {
        LocationType::Config
    }
}

/// The absolute paths of the base directories of the host.
#[derive(Clone, Debug, PartialEq, Eq)]
pub struct BaseDirs {
    pub home: String,
    pub config: String,
}

impl LocationType {
    /// The base directory that this location stands for.
    pub open spec fn anchor(self, base_dirs: BaseDirs) -> Seq<char> {
        match self {
            LocationType::Home => base_dirs.home@,
            LocationType::Config => base_dirs.config@,
        }
    }

    /// Looks the location up among the base directories.
    pub fn path<'a>(&self, base_dirs: &'a BaseDirs) -> (r: &'a str)
        ensures
            r@ == self.anchor(*base_dirs),
    {
        match self {
            LocationType::Home => base_dirs.home.as_str(),
            LocationType::Config => base_dirs.config.as_str(),
        }
    }
}

/// One declaration: link `destination`, relative to `location`, to `source`,
/// relative to the directory of the manifest.
#[derive(Clone, Debug, PartialEq, Eq)]
pub struct DotFileItem {
    pub source: String,
    pub destination: String,
    pub location: LocationType,
}

impl DotFileItem {
    /// The absolute path of the source, for a manifest in `source_dir`.
    pub open spec fn source_path(self, source_dir: Seq<char>) -> Seq<char> {
        joined(source_dir, self.source@)
    }

    /// The absolute path of the destination.
    pub open spec fn destination_path(self, base_dirs: BaseDirs) -> Seq<char> {
        joined(self.location.anchor(base_dirs), self.destination@)
    }

    /// The reconciliation of this declaration, before its first question.
    pub open spec fn installation(self, base_dirs: BaseDirs, source_dir: Seq<char>) -> InstallerView {
        InstallerView::start(
            self.source@,
            self.source_path(source_dir),
            self.destination_path(base_dirs),
        )
    }

    /// Begins the reconciliation of this declaration: resolves its two
    /// paths and returns the machine at its first question.
    pub fn install(&self, base_dirs: &BaseDirs, source_dir: &str) -> (r: Installer)
        ensures
            r@ == self.installation(*base_dirs, source_dir@),
    {
        let destination = join(self.location.path(base_dirs), self.destination.as_str());
        let source = join(source_dir, self.source.as_str());
        Installer::new(self.source.clone(), source, destination)
    }
}

/// What a manifest holds: its declarations, in the order in which they are processed.
#[derive(Clone, Debug, PartialEq, Eq)]
pub struct ManifestContent {
    pub files: Vec<DotFileItem>,
}

impl ManifestContent {
    /// The source as declared, the absolute source and the absolute
    /// destination of each declaration, in order.
    pub open spec fn declared_paths(self, base_dirs: BaseDirs, source_dir: Seq<char>) -> Seq<
        (Seq<char>, Seq<char>, Seq<char>),
    > {
        Seq::new(
            self.files.len() as nat,
            |i: int|
                (
                    self.files[i].source@,
                    self.files[i].source_path(source_dir),
                    self.files[i].destination_path(base_dirs),
                ),
        )
    }

    /// One reconciliation for each declaration, in the manifest's order,
    /// each before its first question. None depends on another: how one
    /// ends has no part in what the next one asks.
    pub fn installers(&self, base_dirs: &BaseDirs, source_dir: &str) -> (r: Vec<Installer>)
        ensures
            r.len() == self.files.len(),
            forall|i: int|
                0 <= i < r.len() ==> (#[trigger] r[i])@ == InstallerView::start(
                    self.declared_paths(*base_dirs, source_dir@)[i].0,
                    self.declared_paths(*base_dirs, source_dir@)[i].1,
                    self.declared_paths(*base_dirs, source_dir@)[i].2,
                ),
    {
        let mut out: Vec<Installer> = Vec::new();
        let mut i: usize = 0;
        while i < self.files.len()
            invariant
                i <= self.files.len(),
                out.len() == i,
                forall|j: int|
                    0 <= j < i ==> (#[trigger] out[j])@ == self.files[j].installation(
                        *base_dirs,
                        source_dir@,
                    ),
            decreases self.files.len() - i,
        {
            out.push(self.files[i].install(base_dirs, source_dir));
            i += 1;
        }
        out
    }
}

} // verus!
