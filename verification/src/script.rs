//! What a build script does with a specification: it has the specification
//! examined and the program text written, and is told where the text
//! belongs.

use vstd::prelude::*;
use crate::codegen::program::{generate_code, generated};
use crate::config::raw;
use crate::config::rules::validated;
use crate::config::{Config, ValidationError, ValidationErrorView};
use crate::man::{generate_man_page, is_page_of, ManPage, PackageInfo};
use crate::manifest;
use crate::manifest::{jobs, jobs_of, spec_paths_of, Job, Package};

verus! {

/// Why no program text was written.
#[derive(Debug)]
pub enum Error {
    /// The specification is wrong in the ways that are listed here.
    Config(Vec<ValidationError>),
    /// The manifest of the package does not say where the specifications
    /// are.
    Manifest(manifest::Error),
    /// The build does not say where its manifest is.
    MissingManifestDirEnvVar,
    /// The build does not say where its output belongs.
    MissingOutDir,
}

/// What an [`Error`] stands for in contracts.
pub enum ErrorView {
    Config(Seq<ValidationErrorView>),
    Manifest(manifest::Error),
    MissingManifestDirEnvVar,
    MissingOutDir,
}

impl DeepView for Error {
    type V = ErrorView;

    open spec fn deep_view(&self) -> ErrorView {
        match self {
            Error::Config(errors) => ErrorView::Config(errors.deep_view()),
            Error::Manifest(error) => ErrorView::Manifest(*error),
            Error::MissingManifestDirEnvVar => ErrorView::MissingManifestDirEnvVar,
            Error::MissingOutDir => ErrorView::MissingOutDir,
        }
    }
}

/// The name of the file that holds the program text.
pub const GENERATED_FILE_NAME: &'static str = "configure_me_config.rs";

/// The name of the file that holds the program text for the program
/// `binary`, or for the package if no program is named.
pub open spec fn out_file_name(binary: Option<Seq<char>>) -> Seq<char> {
    match binary {
        Some(binary) => binary + "_"@ + GENERATED_FILE_NAME@,
        None => GENERATED_FILE_NAME@,
    }
}

/// Where the program text belongs: the directory of the build's output,
/// and in it the file [`out_file_name`]. A build that does not say where its
/// output belongs has no such place.
pub fn default_out_file(binary: Option<&str>, out_dir: Option<String>) -> (r: Result<
    (String, String),
    Error,
>)
    ensures
        match r {
            Ok((dir, file)) => {
                &&& out_dir == Some(dir)
                &&& file@ == out_file_name(binary.deep_view())
            },
            Err(error) => out_dir is None && error.deep_view() is MissingOutDir,
        },
{
    let file_name = match binary {
        Some(binary) => {
            let mut name = String::from_str(binary);
            name.append("_");
            name.append(GENERATED_FILE_NAME);
            name
        },
        None => String::from_str(GENERATED_FILE_NAME),
    };
    match out_dir {
        Some(dir) => Ok((dir, file_name)),
        None => Err(Error::MissingOutDir),
    }
}

/// Has the specification `source` examined and writes the program text for
/// it.
pub fn generate_source(source: raw::Config) -> (r: Result<String, Error>)
    ensures
        match r {
            Ok(code) => exists|config: Config|
                validated(source.deep_view()) == Ok::<_, Seq<ValidationErrorView>>(
                    config.deep_view(),
                ) && code@ == generated(&config, Seq::empty()),
            Err(error) => error.deep_view() matches ErrorView::Config(errors) && validated(
                source.deep_view(),
            ) == Err::<crate::config::ConfigView, _>(errors),
        },
{
    match source.validate() {
        Ok(config) => {
            let mut code = String::new();
            generate_code(&config, &mut code);
            Ok(code)
        },
        Err(errors) => Err(Error::Config(errors)),
    }
}

/// What a build script hands on: the program text, where it belongs, the
/// line that tells the build when to run the script again, and the
/// specification as it was examined.
#[derive(Debug)]
pub struct Built {
    pub out_dir: String,
    pub file_name: String,
    pub code: String,
    pub rerun_directive: String,
    pub config: Config,
}

/// The line that tells the build to run the script again when the file
/// `path` has changed.
pub open spec fn rerun_if_changed(path: Seq<char>) -> Seq<char> {
    "cargo:rerun-if-changed="@ + path
}

/// Whether `built` is what the build script hands on for the specification
/// `source` read from `source_path`, the program `binary` and the directory
/// `out_dir`.
pub open spec fn is_built(
    built: Built,
    source_path: Seq<char>,
    source: raw::RawConfigView,
    binary: Option<Seq<char>>,
    out_dir: Seq<char>,
) -> bool {
    &&& validated(source) == Ok::<_, Seq<ValidationErrorView>>(built.config.deep_view())
    &&& built.code@ == generated(&built.config, Seq::empty())
    &&& built.out_dir@ == out_dir
    &&& built.file_name@ == out_file_name(binary)
    &&& built.rerun_directive@ == rerun_if_changed(source_path)
}

/// Has the specification `source`, which was read from `source_path`,
/// examined, and writes the program text for the program `binary`. A
/// specification that is wrong is reported before a build that does not say
/// where its output belongs.
pub fn load_and_generate_default(
    source_path: &str,
    source: raw::Config,
    binary: Option<&str>,
    out_dir: Option<String>,
) -> (r: Result<Built, Error>)
    ensures
        match r {
            Ok(built) => out_dir matches Some(dir) && is_built(
                built,
                source_path@,
                source.deep_view(),
                binary.deep_view(),
                dir@,
            ),
            Err(error) => match validated(source.deep_view()) {
                Err(errors) => error.deep_view() == ErrorView::Config(errors),
                Ok(_) => out_dir is None && error.deep_view() is MissingOutDir,
            },
        },
{
    let config = match source.validate() {
        Ok(config) => config,
        Err(errors) => {
            return Err(Error::Config(errors));
        },
    };
    let (out_dir, file_name) = match default_out_file(binary, out_dir) {
        Ok(place) => place,
        Err(error) => {
            return Err(error);
        },
    };
    let mut code = String::new();
    generate_code(&config, &mut code);
    let mut rerun_directive = String::from_str("cargo:rerun-if-changed=");
    rerun_directive.append(source_path);
    Ok(Built { out_dir, file_name, code, rerun_directive, config })
}

/// What a build script does with the specification `source` of a package,
/// which was read from `source_path`.
pub fn build_script(source_path: &str, source: raw::Config, out_dir: Option<String>) -> (r: Result<
    Built,
    Error,
>)
    ensures
        match r {
            Ok(built) => out_dir matches Some(dir) && is_built(
                built,
                source_path@,
                source.deep_view(),
                None,
                dir@,
            ),
            Err(error) => match validated(source.deep_view()) {
                Err(errors) => error.deep_view() == ErrorView::Config(errors),
                Ok(_) => out_dir is None && error.deep_view() is MissingOutDir,
            },
        },
{
    load_and_generate_default(source_path, source, None, out_dir)
}

/// What a build script that finds its specifications itself starts with:
/// the specifications that the manifest of the package names. A build that
/// does not say where its manifest is has none.
pub fn build_script_auto(manifest_dir: Option<String>, package: Option<Package>) -> (r: Result<
    (String, Vec<Job>),
    Error,
>)
    ensures
        match r {
            Ok((dir, found)) => {
                &&& manifest_dir == Some(dir)
                &&& spec_paths_of(package) matches Ok(paths) && found.deep_view() == jobs_of(paths)
            },
            Err(error) => match manifest_dir {
                None => error.deep_view() is MissingManifestDirEnvVar,
                Some(_) => spec_paths_of(package) matches Err(lack) && error.deep_view()
                    == ErrorView::Manifest(lack),
            },
        },
{
    let dir = match manifest_dir {
        Some(dir) => dir,
        None => {
            return Err(Error::MissingManifestDirEnvVar);
        },
    };
    match jobs(package) {
        Ok(found) => Ok((dir, found)),
        Err(error) => Err(Error::Manifest(error)),
    }
}

/// What a build script that also writes the manual page hands on.
#[derive(Debug)]
pub struct BuiltWithMan {
    pub built: Built,
    /// What the manual page says.
    pub page: ManPage,
    /// The file that the manual page belongs in.
    pub man_file: String,
}

/// The name of the file that holds the manual page in the directory of the
/// build's output.
pub const MAN_FILE_NAME: &'static str = "app.man";

/// The outcome of writing the program text and the manual page for the
/// specification `source`: what is wrong with the specification comes
/// first, then a build that does not say where its output belongs, then a
/// manifest that does not describe the package.
pub open spec fn is_built_with_man(
    r: Result<BuiltWithMan, Error>,
    source_path: Seq<char>,
    source: raw::RawConfigView,
    out_dir: Option<String>,
    package: Option<&PackageInfo>,
    output: Seq<char>,
) -> bool {
    match r {
        Ok(done) => {
            &&& out_dir matches Some(dir) && is_built(done.built, source_path, source, None, dir@)
            &&& package matches Some(package) && is_page_of(
                done.page,
                done.built.config.deep_view(),
                *package,
            )
            &&& done.man_file@ == output
        },
        Err(error) => match validated(source) {
            Err(errors) => error.deep_view() == ErrorView::Config(errors),
            Ok(_) => if out_dir is None {
                error.deep_view() is MissingOutDir
            } else {
                package is None && error.deep_view() == ErrorView::Manifest(
                    manifest::Error::MissingPackage,
                )
            },
        },
    }
}

/// What a build script does that writes the program text, and the manual
/// page to the file `output`.
pub fn build_script_with_man_written_to(
    source_path: &str,
    source: raw::Config,
    out_dir: Option<String>,
    package: Option<&PackageInfo>,
    output: String,
) -> (r: Result<BuiltWithMan, Error>)
    ensures
        is_built_with_man(r, source_path@, source.deep_view(), out_dir, package, output@),
{
    let built = match load_and_generate_default(source_path, source, None, out_dir) {
        Ok(built) => built,
        Err(error) => {
            return Err(error);
        },
    };
    match generate_man_page(&built.config, package) {
        Ok(page) => Ok(BuiltWithMan { built, page, man_file: output }),
        Err(error) => Err(Error::Manifest(error)),
    }
}

/// What a build script does that writes the program text, and the manual
/// page to the directory of the build's output. A build that does not say
/// where its output belongs fails before the specification is looked at.
pub fn build_script_with_man(
    source_path: &str,
    source: raw::Config,
    out_dir: Option<String>,
    package: Option<&PackageInfo>,
) -> (r: Result<BuiltWithMan, Error>)
    ensures
        match out_dir {
            None => r matches Err(error) && error.deep_view() is MissingOutDir,
            Some(_) => is_built_with_man(
                r,
                source_path@,
                source.deep_view(),
                out_dir,
                package,
                MAN_FILE_NAME@,
            ),
        },
{
    if out_dir.is_none() {
        return Err(Error::MissingOutDir);
    }
    build_script_with_man_written_to(
        source_path,
        source,
        out_dir,
        package,
        String::from_str(MAN_FILE_NAME),
    )
}

} // verus!
