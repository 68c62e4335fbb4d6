//! What the manifest of a package says of the specifications of its
//! programs.

use vstd::prelude::*;

verus! {

/// Where the specifications of a package are.
#[derive(Debug)]
pub enum SpecificationPaths {
    /// One specification for the package; the path is taken from the
    /// directory of the manifest.
    Single(String),
    /// One specification for each program of the package: the name of the
    /// program, and the path of its specification.
    PerBinary(Vec<(String, String)>),
}

/// What a [`SpecificationPaths`] stands for in contracts.
pub enum SpecificationPathsView {
    Single(Seq<char>),
    PerBinary(Seq<(Seq<char>, Seq<char>)>),
}

impl DeepView for SpecificationPaths {
    type V = SpecificationPathsView;

    open spec fn deep_view(&self) -> SpecificationPathsView {
        match self {
            SpecificationPaths::Single(path) => SpecificationPathsView::Single(path@),
            SpecificationPaths::PerBinary(paths) => SpecificationPathsView::PerBinary(
                paths.deep_view(),
            ),
        }
    }
}

/// What the manifest says for this crate.
#[derive(Debug)]
pub struct ConfigureMeMetadata {
    /// Where the specifications are.
    pub spec_paths: SpecificationPaths,
}

/// The part of the manifest that packages set for the tools they use.
#[derive(Debug)]
pub struct Metadata {
    /// What is set for this crate.
    pub configure_me: Option<ConfigureMeMetadata>,
}

/// What is read of the package in a manifest.
#[derive(Debug)]
pub struct Package {
    pub metadata: Option<Metadata>,
}

/// Where the manifest is looked for: in the directory the program runs in.
#[derive(Debug, Clone, Copy, PartialEq, Eq, Structural)]
pub struct CurrentDir;

impl CurrentDir {
    /// The name of the file that holds the manifest.
    pub fn manifest_file(&self) -> (name: &'static str)
        ensures
            name@ == "Cargo.toml"@,
    {
        "Cargo.toml"
    }
}

/// What a manifest lacks.
#[derive(Debug, Clone, Copy, PartialEq, Eq, Structural)]
pub enum Error {
    MissingPackage,
    MissingMetadata,
    MissingConfigureMeMetadata,
}

/// What is said of what a manifest lacks.
pub open spec fn error_text(error: Error) -> Seq<char> {
    match error {
        Error::MissingPackage => "The manifest is missing package section"@,
        Error::MissingMetadata => "The manifest is missing metadata section"@,
        Error::MissingConfigureMeMetadata => "The manifest is missing metadata.configure_me section"@,
    }
}

impl Error {
    /// What is said of the error.
    pub fn to_string(&self) -> (text: String)
        ensures
            text@ == error_text(*self),
    {
        match self {
            Error::MissingPackage => String::from_str("The manifest is missing package section"),
            Error::MissingMetadata => String::from_str("The manifest is missing metadata section"),
            Error::MissingConfigureMeMetadata => String::from_str(
                "The manifest is missing metadata.configure_me section",
            ),
        }
    }
}

/// One specification for which program text is to be written: where it is,
/// and the program it is for where the package has more than one.
#[derive(Debug)]
pub struct Job {
    pub spec_path: String,
    pub binary: Option<String>,
}

impl DeepView for Job {
    type V = (Seq<char>, Option<Seq<char>>);

    open spec fn deep_view(&self) -> (Seq<char>, Option<Seq<char>>) {
        (self.spec_path@, self.binary.deep_view())
    }
}

/// The specifications that a manifest names: the one of the package, or one
/// for each program in the order in which the manifest lists them.
pub open spec fn jobs_of(paths: SpecificationPathsView) -> Seq<(Seq<char>, Option<Seq<char>>)> {
    match paths {
        SpecificationPathsView::Single(path) => seq![(path, None)],
        SpecificationPathsView::PerBinary(paths) => paths.map_values(
            |entry: (Seq<char>, Seq<char>)| (entry.1, Some(entry.0)),
        ),
    }
}

/// Where a package says its specifications are, or what its manifest lacks
/// to say so.
pub open spec fn spec_paths_of(package: Option<Package>) -> Result<SpecificationPathsView, Error> {
    match package {
        None => Err(Error::MissingPackage),
        Some(package) => match package.metadata {
            None => Err(Error::MissingMetadata),
            Some(metadata) => match metadata.configure_me {
                None => Err(Error::MissingConfigureMeMetadata),
                Some(configure_me) => Ok(configure_me.spec_paths.deep_view()),
            },
        },
    }
}

/// The specifications that the manifest of a package names.
pub fn jobs(package: Option<Package>) -> (r: Result<Vec<Job>, Error>)
    ensures
        match r {
            Ok(jobs) => spec_paths_of(package) matches Ok(paths) && jobs.deep_view() == jobs_of(
                paths,
            ),
            Err(error) => spec_paths_of(package) == Err::<SpecificationPathsView, Error>(error),
        },
{
    let package = match package {
        Some(package) => package,
        None => {
            return Err(Error::MissingPackage);
        },
    };
    let metadata = match package.metadata {
        Some(metadata) => metadata,
        None => {
            return Err(Error::MissingMetadata);
        },
    };
    let configure_me = match metadata.configure_me {
        Some(configure_me) => configure_me,
        None => {
            return Err(Error::MissingConfigureMeMetadata);
        },
    };
    let mut jobs: Vec<Job> = Vec::new();
    match configure_me.spec_paths {
        SpecificationPaths::Single(path) => {
            jobs.push(Job { spec_path: path, binary: None });
            proof {
                assert(jobs.deep_view() =~= seq![(path@, None::<Seq<char>>)]);
            }
        },
        SpecificationPaths::PerBinary(paths) => {
            let ghost all = paths.deep_view();
            let ghost items = paths@;
            for entry in it: paths
                invariant
                    it.seq() == items,
                    all.len() == items.len(),
                    forall|k: int| 0 <= k < all.len() ==> (#[trigger] items[k]).deep_view() == all[k],
                    jobs.len() == it.index(),
                    forall|k: int|
                        0 <= k < it.index() ==> (#[trigger] jobs[k]).deep_view() == (
                            all[k].1,
                            Some(all[k].0),
                        ),
            {
                let (binary, path) = entry;
                jobs.push(Job { spec_path: path, binary: Some(binary) });
            }
            proof {
                assert(jobs.deep_view() =~= jobs_of(SpecificationPathsView::PerBinary(all)));
            }
        },
    }
    Ok(jobs)
}

} // verus!
