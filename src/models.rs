use vstd::prelude::*;

verus! {

/// The three package backends.
#[derive(Clone, Copy, Debug, PartialEq, Eq, Structural)]
pub enum Source {
    /// The system repositories, served by pacman.
    Official,
    /// The community repository, served by an AUR helper.
    Aur,
    /// Sandboxed applications, served by flatpak.
    Flatpak,
}

/// One package as a backend reports it.
#[derive(Clone, Debug)]
pub struct Package {
    pub name: String,
    pub version: String,
    pub description: String,
    pub source: Source,
    pub installed: bool,
    pub category: String,
    pub downloads: u64,
    /// Rating in hundredths of a point; zero when the backend gives none.
    pub rating: u32,
    pub maintainer: String,
    pub size: String,
    pub last_updated: String,
}

pub struct PackageView {
    pub name: Seq<char>,
    pub version: Seq<char>,
    pub description: Seq<char>,
    pub source: Source,
    pub installed: bool,
    pub category: Seq<char>,
    pub downloads: u64,
    pub rating: u32,
    pub maintainer: Seq<char>,
    pub size: Seq<char>,
    pub last_updated: Seq<char>,
}

impl View for Package {
    type V = PackageView;

    open spec fn view(&self) -> PackageView {
        PackageView {
            name: self.name@,
            version: self.version@,
            description: self.description@,
            source: self.source,
            installed: self.installed,
            category: self.category@,
            downloads: self.downloads,
            rating: self.rating,
            maintainer: self.maintainer@,
            size: self.size@,
            last_updated: self.last_updated@,
        }
    }
}

/// A record with the five common attributes set and the optional metadata empty.
pub open spec fn record(
    name: Seq<char>,
    version: Seq<char>,
    description: Seq<char>,
    source: Source,
    installed: bool,
) -> PackageView {
    PackageView {
        name,
        version,
        description,
        source,
        installed,
        category: seq![],
        downloads: 0,
        rating: 0,
        maintainer: seq![],
        size: seq![],
        last_updated: seq![],
    }
}

pub open spec fn package_views(s: Seq<Package>) -> Seq<PackageView> {
    s.map_values(|p: Package| p@)
}

impl Package {
    pub fn new(
        name: String,
        version: String,
        description: String,
        source: Source,
        installed: bool,
    ) -> (r: Package)
        ensures
            r@ == record(name@, version@, description@, source, installed),
    {
        Package {
            name,
            version,
            description,
            source,
            installed,
            category: String::new(),
            downloads: 0,
            rating: 0,
            maintainer: String::new(),
            size: String::new(),
            last_updated: String::new(),
        }
    }
}

/// One progress notification of a running operation.
#[derive(Clone, Debug)]
pub struct InstallProgress {
    pub percentage: u32,
    pub message: String,
    pub completed: bool,
}

} // verus!
