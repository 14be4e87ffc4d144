//! An archetype loaded into memory, and the steps by which a project is made
//! from it.

use vstd::prelude::*;
use vstd::string::*;
use crate::collect::{
    answers_context, collect, collect_answers, collect_defaults, collected, current_year,
    is_year_text,
    defaults_context, name_key, prompted, prompts, question_lines, questions, year_key,
    SourceModel, VariableSource,
};
use crate::config::Config;
use crate::context::RenderContext;
use crate::document::toml_document;
use crate::error::Error;
use crate::hooks::{begin, issue, HookStep};
use crate::locate::{locate, located};
use crate::manifest::{manifest_model, Manifest, ManifestModel, VariableSpec};
use crate::path::{join, joined, manifest_name};
use crate::render::{is_kept_as_is, is_literal, is_plan_of, render_tree, reproduction, RenderPlan, TemplateEntry};

verus! {

/// A project archetype: its name, its manifest and where its templates are.
pub struct Archetype {
    name: String,
    config: Manifest,
    template_path: String,
}

/// The mathematical content of an `Archetype`.
pub struct ArchetypeModel {
    pub name: Seq<char>,
    pub manifest: ManifestModel,
    pub template_path: Seq<char>,
}

/// The stages of an instantiation, in their order.
#[derive(Clone, Copy, Debug, PartialEq, Eq, Structural)]
pub enum Stage {
    /// Find out whether the destination exists. Nothing is written yet.
    CheckDestination,
    /// Create the destination directory.
    CreateDestination,
    /// Collect the variables into the rendering context.
    CollectVariables,
    /// Render the template tree into the destination.
    RenderTemplates,
    /// Run the post-creation hooks in the destination.
    RunHooks,
}

/// What the caller reports of the stage it was asked to carry out.
pub enum StageReport {
    /// Whether the destination exists.
    Probed { exists: bool },
    /// The stage was carried out.
    Done,
    /// The stage failed.
    Failed(Error),
}

/// An instantiation under way: a project of the name `project_name` is being
/// made from `archetype` at `destination`, and `stage` is what has to be done
/// now.
pub struct Instantiation<'a> {
    pub archetype: &'a Archetype,
    pub project_name: String,
    pub destination: String,
    pub use_defaults: bool,
    pub stage: Stage,
}

/// How an instantiation goes on after a report.
pub enum Progress<'a> {
    /// Carry out the stage of this instantiation.
    Next(Instantiation<'a>),
    /// The project is made.
    Finished,
    /// The instantiation has failed. What was written stays as it is.
    Failed(Error),
}

/// The stage that follows `stage`; none follows the last.
pub open spec fn following(stage: Stage) -> Option<Stage> {
    match stage {
        Stage::CheckDestination => Some(Stage::CreateDestination),
        Stage::CreateDestination => Some(Stage::CollectVariables),
        Stage::CollectVariables => Some(Stage::RenderTemplates),
        Stage::RenderTemplates => Some(Stage::RunHooks),
        Stage::RunHooks => None,
    }
}

/// How an instantiation goes on.
pub enum ProgressModel {
    /// With the stage `stage`.
    Next { stage: Stage },
    Finished,
    /// Not at all: the destination exists.
    DestinationExists,
    /// Not at all: the stage failed with the error that was reported.
    Failed,
}

/// How an instantiation at `stage` goes on after a report. A destination
/// that exists ends it before anything is written. A failure ends it where
/// it stands. A report that does not answer the stage leaves it there.
pub open spec fn progress(stage: Stage, report: StageReport) -> ProgressModel {
    match (stage, report) {
        (_, StageReport::Failed(_)) => ProgressModel::Failed,
        (Stage::CheckDestination, StageReport::Probed { exists }) => if exists {
            ProgressModel::DestinationExists
        } else {
            ProgressModel::Next { stage: Stage::CreateDestination }
        },
        (Stage::CheckDestination, StageReport::Done) => ProgressModel::Next { stage },
        (_, StageReport::Probed { .. }) => ProgressModel::Next { stage },
        (_, StageReport::Done) => match following(stage) {
            Some(next) => ProgressModel::Next { stage: next },
            None => ProgressModel::Finished,
        },
    }
}

/// An instantiation leaves its first stage, at which nothing is written yet,
/// only for the creation of the destination, and only on the report that the
/// destination does not exist. On the report that it exists it fails.
pub proof fn law_nothing_is_written_to_an_existing_destination(report: StageReport)
    ensures
        progress(Stage::CheckDestination, StageReport::Probed { exists: true })
            == ProgressModel::DestinationExists,
        progress(Stage::CheckDestination, report) matches ProgressModel::Next { stage } ==> stage
            == Stage::CheckDestination || (stage == Stage::CreateDestination && report
            == StageReport::Probed { exists: false }),
        progress(Stage::CheckDestination, report) !is Finished,
{
}

impl<'a> Instantiation<'a> {
    /// Whether `other` is this instantiation, at whatever stage.
    pub open spec fn is_same_as(&self, other: &Instantiation<'a>) -> bool {
        &&& other.archetype == self.archetype
        &&& other.project_name@ == self.project_name@
        &&& other.destination@ == self.destination@
        &&& other.use_defaults == self.use_defaults
    }

    /// Takes the report on the stage and says how the instantiation goes on.
    pub fn advance(self, report: StageReport) -> (r: Progress<'a>)
        ensures
            match progress(self.stage, report) {
                ProgressModel::Next { stage } => r matches Progress::Next(next) && next.stage
                    == stage && self.is_same_as(&next),
                ProgressModel::Finished => r is Finished,
                ProgressModel::DestinationExists => r matches Progress::Failed(
                    Error::DestinationExists { path },
                ) && path@ == self.destination@,
                ProgressModel::Failed => r matches Progress::Failed(e) && report
                    == StageReport::Failed(e),
            },
    {
        let stage = self.stage;
        match report {
            StageReport::Failed(e) => Progress::Failed(e),
            StageReport::Probed { exists } => match stage {
                Stage::CheckDestination => if exists {
                    Progress::Failed(Error::DestinationExists { path: self.destination })
                } else {
                    Progress::Next(self.at(Stage::CreateDestination))
                },
                _ => Progress::Next(self),
            },
            StageReport::Done => match stage {
                Stage::CheckDestination => Progress::Next(self),
                Stage::CreateDestination => Progress::Next(self.at(Stage::CollectVariables)),
                Stage::CollectVariables => Progress::Next(self.at(Stage::RenderTemplates)),
                Stage::RenderTemplates => Progress::Next(self.at(Stage::RunHooks)),
                Stage::RunHooks => Progress::Finished,
            },
        }
    }

    /// The questions to put to the user at the stage that collects the
    /// variables: none where the defaults are wanted, else one for each
    /// declared variable but the reserved ones.
    pub fn questions(&self) -> (r: Vec<String>)
        ensures
            r@.map_values(|s: String| s@) == questions(
                self.archetype@.manifest.variables,
                self.use_defaults,
            ),
    {
        question_lines(&self.archetype.config.variables, self.use_defaults)
    }

    /// Collects the context at the stage that collects the variables:
    /// from the defaults where they are wanted, else from `answers`, the
    /// lines that the user answered the questions with.
    ///
    /// The result is always `Ok`. The year is that of the clock at the time
    /// of the call, written as `%Y` writes a year.
    pub fn collect_variables(&self, answers: Vec<String>) -> (r: Result<RenderContext, Error>)
        ensures
            r is Ok,
            r matches Ok(context) ==> {
                &&& context@.dom().contains(name_key())
                &&& context@[name_key()] == Some(self.project_name@)
                &&& context@.dom().contains(year_key())
                &&& context@[year_key()] matches Some(year)
                &&& is_year_text(year)
                &&& context@ == collected(
                    self.archetype@.manifest.variables,
                    self.project_name@,
                    year,
                    if self.use_defaults {
                        SourceModel::Defaults
                    } else {
                        SourceModel::Answers(answers@.map_values(|s: String| s@))
                    },
                )
            },
    {
        let source = self.source(answers);
        self.archetype.collect_variables(self.project_name.as_str(), &source)
    }

    /// Where the variables come from: the defaults where they are wanted,
    /// else the lines that the user answered the questions with.
    pub fn source(&self, answers: Vec<String>) -> (r: VariableSource)
        ensures
            r@ == if self.use_defaults {
                SourceModel::Defaults
            } else {
                SourceModel::Answers(answers@.map_values(|s: String| s@))
            },
    {
        if self.use_defaults {
            VariableSource::Defaults
        } else {
            VariableSource::Answers(answers)
        }
    }

    /// This instantiation at another stage.
    fn at(self, stage: Stage) -> (r: Instantiation<'a>)
        ensures
            r.stage == stage,
            self.is_same_as(&r),
    {
        Instantiation {
            archetype: self.archetype,
            project_name: self.project_name,
            destination: self.destination,
            use_defaults: self.use_defaults,
            stage,
        }
    }
}

impl Archetype {
    pub closed spec fn view(&self) -> ArchetypeModel {
        ArchetypeModel {
            name: self.name@,
            manifest: self.config@,
            template_path: self.template_path@,
        }
    }

    /// An archetype from its parts.
    pub fn new(name: String, manifest: Manifest, template_path: String) -> (r: Archetype)
        ensures
            r@ == (ArchetypeModel {
                name: name@,
                manifest: manifest@,
                template_path: template_path@,
            }),
    {
        Archetype { name, config: manifest, template_path }
    }

    /// The name by which the archetype was asked for.
    pub fn name(&self) -> (r: &String)
        ensures
            r@ == self@.name,
    {
        &self.name
    }

    /// The manifest.
    pub fn manifest(&self) -> (r: &Manifest)
        ensures
            r@ == self@.manifest,
    {
        &self.config
    }

    /// The directory that holds the templates.
    pub fn template_path(&self) -> (r: &String)
        ensures
            r@ == self@.template_path,
    {
        &self.template_path
    }

    /// The manifest file of the template directory `template_path`.
    pub fn manifest_path(template_path: &str) -> (r: String)
        ensures
            r@ == joined(template_path@, manifest_name()),
    {
        join(template_path, "archetype.toml")
    }

    /// Loads the archetype `name`.
    ///
    /// `present` says which of the directories of `search_paths` exist, and
    /// `manifest` is the text of the manifest file in the directory that
    /// `locate` selects, or `None` where that file cannot be read.
    ///
    /// Fails with `NotFound` where no directory exists, with
    /// `ManifestMissing` where the manifest cannot be read, and with
    /// `ManifestInvalid` where it is malformed or does not fit the schema.
    pub fn load(
        app_config: &Config,
        name: &str,
        present: &Vec<Vec<bool>>,
        manifest: Option<&str>,
    ) -> (r: Result<Archetype, Error>)
        ensures
            match located(app_config@, name@, present@) {
                None => r matches Err(Error::NotFound { name: n }) && n@ == name@,
                Some(path) => match manifest {
                    None => r matches Err(Error::ManifestMissing { path: p }) && p@ == path,
                    Some(text) => match toml_document(text@) {
                        None => r matches Err(e) && e is ManifestInvalid,
                        Some(document) => match manifest_model(document) {
                            None => r matches Err(e) && e is ManifestInvalid,
                            Some(m) => r matches Ok(a) && a@ == (ArchetypeModel {
                                name: name@,
                                manifest: m,
                                template_path: path,
                            }),
                        },
                    },
                },
            },
    {
        let template_path = locate(app_config, name, present)?;
        let text = match manifest {
            Some(text) => text,
            None => {
                return Err(Error::ManifestMissing { path: template_path });
            },
        };
        let config = Manifest::parse(text)?;
        Ok(Archetype { name: String::from_str(name), config, template_path })
    }

    /// Begins the instantiation of a project named `project_name` at
    /// `destination`. The first stage only looks whether the destination
    /// exists: where it does, the instantiation fails before anything is
    /// written.
    pub fn instantiate<'a>(
        &'a self,
        project_name: &str,
        destination: &str,
        use_defaults: bool,
    ) -> (r: Instantiation<'a>)
        ensures
            r.stage == Stage::CheckDestination,
            r.archetype == self,
            r.project_name@ == project_name@,
            r.destination@ == destination@,
            r.use_defaults == use_defaults,
    {
        Instantiation {
            archetype: self,
            project_name: String::from_str(project_name),
            destination: String::from_str(destination),
            use_defaults,
            stage: Stage::CheckDestination,
        }
    }

    /// The variables that the user is asked for, in the order of the
    /// manifest: the declared ones without the reserved keys.
    pub fn prompts(&self) -> (r: Vec<VariableSpec>)
        ensures
            r@.map_values(|v: VariableSpec| v@) == prompted(self@.manifest.variables),
    {
        prompts(&self.config.variables)
    }

    /// Collects the context for a project named `project_name` from
    /// `source`.
    ///
    /// The result is always `Ok`. The year is that of the clock at the time
    /// of the call, written as `%Y` writes a year.
    pub fn collect_variables(&self, project_name: &str, source: &VariableSource) -> (r: Result<
        RenderContext,
        Error,
    >)
        ensures
            r is Ok,
            r matches Ok(context) ==> {
                &&& context@.dom().contains(name_key())
                &&& context@[name_key()] == Some(project_name@)
                &&& context@.dom().contains(year_key())
                &&& context@[year_key()] matches Some(year)
                &&& is_year_text(year)
                &&& context@ == collected(self@.manifest.variables, project_name@, year, source@)
            },
    {
        let year = current_year();
        Ok(collect(&self.config.variables, project_name, year.as_str(), source))
    }

    /// Collects the context from the lines that the user answered with, one
    /// for each variable of `prompts`, in that order.
    ///
    /// The result is always `Ok`. The year is that of the clock at the time
    /// of the call, written as `%Y` writes a year.
    pub fn collect_variables_interactively(&self, project_name: &str, answers: &Vec<String>) -> (r:
        Result<RenderContext, Error>)
        ensures
            r is Ok,
            r matches Ok(context) ==> {
                &&& context@.dom().contains(name_key())
                &&& context@[name_key()] == Some(project_name@)
                &&& context@.dom().contains(year_key())
                &&& context@[year_key()] matches Some(year)
                &&& is_year_text(year)
                &&& context@ == answers_context(
                    self@.manifest.variables,
                    project_name@,
                    year,
                    answers@.map_values(|s: String| s@),
                )
            },
    {
        let year = current_year();
        Ok(collect_answers(&self.config.variables, project_name, year.as_str(), answers))
    }

    /// Collects the context without asking the user.
    ///
    /// The result is always `Ok`. The year is that of the clock at the time
    /// of the call, written as `%Y` writes a year.
    pub fn collect_variables_with_defaults(&self, project_name: &str) -> (r: Result<
        RenderContext,
        Error,
    >)
        ensures
            r is Ok,
            r matches Ok(context) ==> {
                &&& context@.dom().contains(name_key())
                &&& context@[name_key()] == Some(project_name@)
                &&& context@.dom().contains(year_key())
                &&& context@[year_key()] matches Some(year)
                &&& is_year_text(year)
                &&& context@ == defaults_context(self@.manifest.variables, project_name@, year)
            },
    {
        let year = current_year();
        Ok(collect_defaults(&self.config.variables, project_name, year.as_str()))
    }

    /// Plans the rendering of the template tree: `entries` are the entries
    /// of the template directory in the order of a depth-first walk, with
    /// their paths relative to it.
    pub fn render_template_dir(&self, entries: &Vec<TemplateEntry>, context: &RenderContext) -> (plan:
        RenderPlan)
        ensures
            is_plan_of(plan.steps(), plan.failed_path(), entries@, context@),
            plan.failure matches Some(e) ==> e is Render,
            (forall|i: int|
                0 <= i < entries.len() ==> is_literal(
                    (#[trigger] entries[i]).path_spec(),
                    entries[i].contents_spec(),
                )) ==> {
                &&& plan.failure is None
                &&& forall|i: int|
                    0 <= i < entries.len() && is_kept_as_is(
                        (#[trigger] entries[i]).path_spec(),
                        entries[i].contents_spec(),
                    ) ==> plan.steps()[i] == reproduction(
                        entries[i].path_spec(),
                        entries[i].contents_spec(),
                    )
            },
    {
        render_tree(entries, context)
    }

    /// Begins the run of the post-creation hooks: says whether the first
    /// hook has to run, cannot be prepared, or there is no hook at all. The
    /// first hook may be refused by the engine instead, where it has a tag
    /// in it.
    pub fn run_hooks(&self, context: &RenderContext) -> (r: HookStep)
        ensures
            r.is_step(self@.manifest.hooks, issue(self@.manifest.hooks, context@, 0))
                || r.is_refusal(self@.manifest.hooks, 0),
    {
        begin(self.config.hooks.clone(), context)
    }
}

} // verus!
