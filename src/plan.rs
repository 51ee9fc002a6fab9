//! What to do with one directory entry: the line to report, and whether to
//! skip it, descend into it, rename it or stop with an error.
use vstd::prelude::*;
use crate::names::{
    decimal, extension, extension_of, has_space, contains_space, join, joined, to_decimal,
    underscore, underscored,
};

verus! {

/// The settings of one traversal; they stay the same throughout it.
pub struct Request {
    /// The extension that selects files, without its leading dot.
    pub extension: String,
    /// Report renames without performing them.
    pub dry_run: bool,
    /// Report every entry visited.
    pub verbose: bool,
}

/// Mathematical model of a [`Request`].
pub struct RequestModel {
    pub extension: Seq<char>,
    pub dry_run: bool,
    pub verbose: bool,
}

impl View for Request {
    type V = RequestModel;

    open spec fn view(&self) -> RequestModel {
        RequestModel { extension: self.extension@, dry_run: self.dry_run, verbose: self.verbose }
    }
}

/// What the file system says an entry is, without following symbolic links.
#[derive(Clone, Copy, Debug, PartialEq, Eq, Structural)]
pub enum EntryKind {
    File,
    Directory,
    Symlink,
    Other,
}

/// The part of an entry's metadata that the traversal reads.
#[derive(Clone, Copy, Debug, PartialEq, Eq, Structural)]
pub struct Metadata {
    pub kind: EntryKind,
    /// Length in bytes.
    pub size: u64,
}

/// The base name of a directory entry.
pub enum EntryName {
    /// A name that is valid text.
    Text(String),
    /// A name that is not valid text: `shown` is its lossy rendering, and
    /// `extension` its extension, `Some(None)` where that is not valid text.
    Undecodable { shown: String, extension: Option<Option<String>> },
}

/// Mathematical model of an [`EntryName`].
pub enum NameModel {
    Text(Seq<char>),
    Undecodable { shown: Seq<char>, extension: Option<Option<Seq<char>>> },
}

pub open spec fn extension_view(e: Option<Option<String>>) -> Option<Option<Seq<char>>> {
    match e {
        Some(Some(x)) => Some(Some(x@)),
        Some(None) => Some(None),
        None => None,
    }
}

impl View for EntryName {
    type V = NameModel;

    open spec fn view(&self) -> NameModel {
        match self {
            EntryName::Text(n) => NameModel::Text(n@),
            EntryName::Undecodable { shown, extension } => NameModel::Undecodable {
                shown: shown@,
                extension: extension_view(*extension),
            },
        }
    }
}

/// One entry of a directory listing; `metadata` is `None` where it could not
/// be read.
pub struct Entry {
    pub name: EntryName,
    pub metadata: Option<Metadata>,
}

/// Mathematical model of an [`Entry`].
pub struct EntryModel {
    pub name: NameModel,
    pub metadata: Option<Metadata>,
}

impl View for Entry {
    type V = EntryModel;

    open spec fn view(&self) -> EntryModel {
        EntryModel { name: self.name@, metadata: self.metadata }
    }
}

/// Why a traversal stopped; each kind carries the path or paths concerned.
pub enum TraversalError {
    ReadDir { path: String },
    Metadata { path: String },
    ExtensionDecode { path: String },
    NameDecode { path: String },
    Rename { from: String, to: String },
    UnknownEntryType { path: String },
}

/// Mathematical model of a [`TraversalError`].
pub enum ErrorModel {
    ReadDir(Seq<char>),
    Metadata(Seq<char>),
    ExtensionDecode(Seq<char>),
    NameDecode(Seq<char>),
    Rename(Seq<char>, Seq<char>),
    UnknownEntryType(Seq<char>),
}

impl View for TraversalError {
    type V = ErrorModel;

    open spec fn view(&self) -> ErrorModel {
        match self {
            TraversalError::ReadDir { path } => ErrorModel::ReadDir(path@),
            TraversalError::Metadata { path } => ErrorModel::Metadata(path@),
            TraversalError::ExtensionDecode { path } => ErrorModel::ExtensionDecode(path@),
            TraversalError::NameDecode { path } => ErrorModel::NameDecode(path@),
            TraversalError::Rename { from, to } => ErrorModel::Rename(from@, to@),
            TraversalError::UnknownEntryType { path } => ErrorModel::UnknownEntryType(path@),
        }
    }
}

/// The message that tells which path or operation failed.
pub open spec fn error_message(e: ErrorModel) -> Seq<char> {
    match e {
        ErrorModel::ReadDir(p) => "Cannot read directory "@ + p,
        ErrorModel::Metadata(p) => "Cannot get metadata for "@ + p,
        ErrorModel::ExtensionDecode(p) => "Cannot get extension for file "@ + p,
        ErrorModel::NameDecode(p) => "Cannot get file name for "@ + p,
        ErrorModel::Rename(f, t) => "Cannot rename file from "@ + f + " to "@ + t,
        ErrorModel::UnknownEntryType(p) => "Unknown entry type for "@ + p,
    }
}

impl TraversalError {
    /// A line that tells which path or operation failed.
    pub fn message(&self) -> (r: String)
        ensures
            r@ == error_message(self@),
    {
        match self {
            TraversalError::ReadDir { path } => String::from_str("Cannot read directory ").concat(
                path.as_str(),
            ),
            TraversalError::Metadata { path } => String::from_str("Cannot get metadata for ").concat(
                path.as_str(),
            ),
            TraversalError::ExtensionDecode { path } => String::from_str(
                "Cannot get extension for file ",
            ).concat(path.as_str()),
            TraversalError::NameDecode { path } => String::from_str("Cannot get file name for ").concat(
                path.as_str(),
            ),
            TraversalError::Rename { from, to } => String::from_str("Cannot rename file from ").concat(
                from.as_str(),
            ).concat(" to ").concat(to.as_str()),
            TraversalError::UnknownEntryType { path } => String::from_str(
                "Unknown entry type for ",
            ).concat(path.as_str()),
        }
    }
}

/// What the traversal does with an entry once it is reported.
pub enum Effect {
    /// Go on with the next entry.
    Skip,
    /// List the directory at `dir` and walk it.
    Descend { dir: String },
    /// Rename the file at `from` to `to`.
    Rename { from: String, to: String },
    /// Stop the traversal.
    Fail(TraversalError),
}

/// Mathematical model of an [`Effect`].
pub enum EffectModel {
    Skip,
    Descend(Seq<char>),
    Rename(Seq<char>, Seq<char>),
    Fail(ErrorModel),
}

impl View for Effect {
    type V = EffectModel;

    open spec fn view(&self) -> EffectModel {
        match self {
            Effect::Skip => EffectModel::Skip,
            Effect::Descend { dir } => EffectModel::Descend(dir@),
            Effect::Rename { from, to } => EffectModel::Rename(from@, to@),
            Effect::Fail(e) => EffectModel::Fail(e@),
        }
    }
}

/// The decision on one entry: an optional report line and an effect.
pub struct EntryPlan {
    pub report: Option<String>,
    pub effect: Effect,
}

/// Mathematical model of an [`EntryPlan`].
pub struct PlanModel {
    pub report: Option<Seq<char>>,
    pub effect: EffectModel,
}

pub open spec fn report_view(r: Option<String>) -> Option<Seq<char>> {
    match r {
        Some(s) => Some(s@),
        None => None,
    }
}

impl View for EntryPlan {
    type V = PlanModel;

    open spec fn view(&self) -> PlanModel {
        PlanModel { report: report_view(self.report), effect: self.effect@ }
    }
}

/// The line for a file that does not match, in verbose mode.
pub open spec fn file_line(path: Seq<char>, size: nat) -> Seq<char> {
    "File: "@ + path + " length "@ + decimal(size)
}

/// The line for a matching file that needs no rename, in verbose mode.
pub open spec fn matched_line(ext: Seq<char>, path: Seq<char>, size: nat) -> Seq<char> {
    ext + " file: "@ + path + " length "@ + decimal(size)
}

/// The line that announces a rename, performed or not.
pub open spec fn rename_line(ext: Seq<char>, dry_run: bool, from: Seq<char>, to: Seq<char>) -> Seq<
    char,
> {
    "File: matches "@ + ext + (if dry_run {
        " would rename from '"@
    } else {
        " rename from '"@
    }) + from + "' to '"@ + to + "'"@
}

/// The line for a directory, in verbose mode.
pub open spec fn directory_line(path: Seq<char>) -> Seq<char> {
    "Directory: "@ + path
}

/// The line for a symbolic link, in verbose mode.
pub open spec fn symlink_line(path: Seq<char>) -> Seq<char> {
    "Symlink: "@ + path + " - not following"@
}

/// The path under which an entry of `dir` is shown.
pub open spec fn shown_path(dir: Seq<char>, name: NameModel) -> Seq<char> {
    match name {
        NameModel::Text(n) => joined(dir, n),
        NameModel::Undecodable { shown, .. } => joined(dir, shown),
    }
}

/// The extension of a name: `Some(None)` where it is not valid text.
pub open spec fn name_extension(name: NameModel) -> Option<Option<Seq<char>>> {
    match name {
        NameModel::Text(n) => match extension_of(n) {
            Some(x) => Some(Some(x)),
            None => None,
        },
        NameModel::Undecodable { extension, .. } => extension,
    }
}

/// A line that is reported only in verbose mode.
pub open spec fn verbose_only(req: RequestModel, line: Seq<char>) -> Option<Seq<char>> {
    if req.verbose {
        Some(line)
    } else {
        None
    }
}

/// The decision on a regular file of `dir`.
pub open spec fn planned_file(req: RequestModel, dir: Seq<char>, name: NameModel, size: nat) -> PlanModel {
    let path = shown_path(dir, name);
    match name_extension(name) {
        Some(None) => PlanModel {
            report: None,
            effect: EffectModel::Fail(ErrorModel::ExtensionDecode(path)),
        },
        Some(Some(x)) => if x == req.extension {
            match name {
                NameModel::Text(n) => if has_space(n) {
                    let to = joined(dir, underscored(n));
                    PlanModel {
                        report: Some(rename_line(req.extension, req.dry_run, path, to)),
                        effect: if req.dry_run {
                            EffectModel::Skip
                        } else {
                            EffectModel::Rename(path, to)
                        },
                    }
                } else {
                    PlanModel {
                        report: verbose_only(req, matched_line(req.extension, path, size)),
                        effect: EffectModel::Skip,
                    }
                },
                NameModel::Undecodable { .. } => PlanModel {
                    report: None,
                    effect: EffectModel::Fail(ErrorModel::NameDecode(path)),
                },
            }
        } else {
            PlanModel { report: verbose_only(req, file_line(path, size)), effect: EffectModel::Skip }
        },
        None => PlanModel {
            report: verbose_only(req, file_line(path, size)),
            effect: EffectModel::Skip,
        },
    }
}

/// The decision on an entry of the directory `dir`.
pub open spec fn planned(req: RequestModel, dir: Seq<char>, e: EntryModel) -> PlanModel {
    let path = shown_path(dir, e.name);
    match e.metadata {
        None => PlanModel { report: None, effect: EffectModel::Fail(ErrorModel::Metadata(path)) },
        Some(m) => match m.kind {
            EntryKind::File => planned_file(req, dir, e.name, m.size as nat),
            EntryKind::Directory => PlanModel {
                report: verbose_only(req, directory_line(path)),
                effect: match e.name {
                    NameModel::Text(_) => EffectModel::Descend(path),
                    NameModel::Undecodable { .. } => EffectModel::Fail(
                        ErrorModel::NameDecode(path),
                    ),
                },
            },
            EntryKind::Symlink => PlanModel {
                report: verbose_only(req, symlink_line(path)),
                effect: EffectModel::Skip,
            },
            EntryKind::Other => PlanModel {
                report: None,
                effect: EffectModel::Fail(ErrorModel::UnknownEntryType(path)),
            },
        },
    }
}

/// Formats the verbose line for a file that does not match.
pub fn file_report(path: &str, size: u64) -> (r: String)
    ensures
        r@ == file_line(path@, size as nat),
{
    let d = to_decimal(size);
    String::from_str("File: ").concat(path).concat(" length ").concat(d.as_str())
}

/// Formats the verbose line for a matching file that needs no rename.
pub fn matched_report(ext: &str, path: &str, size: u64) -> (r: String)
    ensures
        r@ == matched_line(ext@, path@, size as nat),
{
    let d = to_decimal(size);
    String::from_str(ext).concat(" file: ").concat(path).concat(" length ").concat(d.as_str())
}

/// Formats the line that announces a rename.
pub fn rename_report(ext: &str, dry_run: bool, from: &str, to: &str) -> (r: String)
    ensures
        r@ == rename_line(ext@, dry_run, from@, to@),
{
    let verb = if dry_run {
        " would rename from '"
    } else {
        " rename from '"
    };
    String::from_str("File: matches ").concat(ext).concat(verb).concat(from).concat("' to '").concat(
        to,
    ).concat("'")
}

/// Formats the verbose line for a directory.
pub fn directory_report(path: &str) -> (r: String)
    ensures
        r@ == directory_line(path@),
{
    String::from_str("Directory: ").concat(path)
}

/// Formats the verbose line for a symbolic link.
pub fn symlink_report(path: &str) -> (r: String)
    ensures
        r@ == symlink_line(path@),
{
    String::from_str("Symlink: ").concat(path).concat(" - not following")
}

/// `line` where the request is verbose, else nothing.
fn when_verbose(request: &Request, line: String) -> (r: Option<String>)
    ensures
        report_view(r) == verbose_only(request@, line@),
{
    if request.verbose {
        Some(line)
    } else {
        None
    }
}

/// Decides on a regular file of `dir` whose name is `name`, shown as `path`.
pub fn plan_file(request: &Request, dir: &str, name: &EntryName, path: String, size: u64) -> (r:
    EntryPlan)
    requires
        path@ == shown_path(dir@, name@),
    ensures
        r@ == planned_file(request@, dir@, name@, size as nat),
{
    match name {
        EntryName::Text(n) => {
            let matches = match extension(n.as_str()) {
                Some(x) => x == request.extension,
                None => false,
            };
            if !matches {
                let line = file_report(path.as_str(), size);
                EntryPlan { report: when_verbose(request, line), effect: Effect::Skip }
            } else if contains_space(n.as_str()) {
                let to = join(dir, underscore(n.as_str()).as_str());
                let line = rename_report(request.extension.as_str(), request.dry_run, path.as_str(), to.as_str());
                let effect = if request.dry_run {
                    Effect::Skip
                } else {
                    Effect::Rename { from: path, to }
                };
                EntryPlan { report: Some(line), effect }
            } else {
                let line = matched_report(request.extension.as_str(), path.as_str(), size);
                EntryPlan { report: when_verbose(request, line), effect: Effect::Skip }
            }
        },
        EntryName::Undecodable { extension: Some(None), .. } => EntryPlan {
            report: None,
            effect: Effect::Fail(TraversalError::ExtensionDecode { path }),
        },
        EntryName::Undecodable { extension: Some(Some(x)), .. } => {
            if *x == request.extension {
                EntryPlan { report: None, effect: Effect::Fail(TraversalError::NameDecode { path }) }
            } else {
                let line = file_report(path.as_str(), size);
                EntryPlan { report: when_verbose(request, line), effect: Effect::Skip }
            }
        },
        EntryName::Undecodable { extension: None, .. } => {
            let line = file_report(path.as_str(), size);
            EntryPlan { report: when_verbose(request, line), effect: Effect::Skip }
        },
    }
}

/// Decides on the entry `entry` of the directory `dir`.
pub fn plan_entry(request: &Request, dir: &str, entry: &Entry) -> (r: EntryPlan)
    ensures
        r@ == planned(request@, dir@, entry@),
{
    let path = match &entry.name {
        EntryName::Text(n) => join(dir, n.as_str()),
        EntryName::Undecodable { shown, .. } => join(dir, shown.as_str()),
    };
    match entry.metadata {
        None => EntryPlan { report: None, effect: Effect::Fail(TraversalError::Metadata { path }) },
        Some(m) => match m.kind {
            EntryKind::File => plan_file(request, dir, &entry.name, path, m.size),
            EntryKind::Directory => {
                let line = directory_report(path.as_str());
                let report = when_verbose(request, line);
                match &entry.name {
                    EntryName::Text(_) => EntryPlan { report, effect: Effect::Descend { dir: path } },
                    EntryName::Undecodable { .. } => EntryPlan {
                        report,
                        effect: Effect::Fail(TraversalError::NameDecode { path }),
                    },
                }
            },
            EntryKind::Symlink => {
                let line = symlink_report(path.as_str());
                EntryPlan { report: when_verbose(request, line), effect: Effect::Skip }
            },
            EntryKind::Other => EntryPlan {
                report: None,
                effect: Effect::Fail(TraversalError::UnknownEntryType { path }),
            },
        },
    }
}

} // verus!
