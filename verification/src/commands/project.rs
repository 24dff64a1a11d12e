//! Commands around projects: where they are kept and what they start from.

use crate::clock::utc_rfc3339;
use crate::commands::{
    app_data_dir_path, app_data_dir_spec, home_dir, new_uuid, project_dir_path, project_dir_spec,
    projects_dir_path, projects_dir_spec, CommandError, CommandResult, Project, ProjectMetadata,
    ProjectSettings,
};
use crate::ffmpeg::timeline::{text_precedes, text_precedes_spec};
use crate::paths::{join, path_join};
use crate::text::clone_opt;
use vstd::prelude::*;
use vstd::string::*;

verus! {

/// A request to make a project.
#[derive(Debug, Clone)]
pub struct CreateProjectRequest {
    pub name: String,
    pub description: String,
}

/// A request to open a project.
#[derive(Debug, Clone)]
pub struct OpenProjectRequest {
    pub project_id: String,
}

/// A request to delete a project.
#[derive(Debug, Clone)]
pub struct DeleteProjectRequest {
    pub project_id: String,
}

/// A request for the settings of a project.
#[derive(Debug, Clone)]
pub struct LoadProjectSettingsRequest {
    pub project_id: String,
}

/// A request for the counters of a project.
#[derive(Debug, Clone)]
pub struct LoadProjectMetadataRequest {
    pub project_id: String,
}

/// The error that the home directory is not known.
pub fn no_home_error() -> (r: CommandError)
    ensures
        r.is("validation_error"@, "Could not find home directory"@),
{
    CommandError::validation_error(String::from_str("Could not find home directory"))
}

/// Where the application keeps its data, below the home directory of the
/// user. Fails where the home directory is not known.
pub fn get_app_support_dir() -> (r: CommandResult<String>)
    ensures
        r matches Ok(p) ==> exists|home: Seq<char>| p@ == app_data_dir_spec(home),
        r matches Err(e) ==> e.is("validation_error"@, "Could not find home directory"@),
{
    match home_dir() {
        Some(home) => Ok(app_data_dir_path(home.as_str())),
        None => Err(no_home_error()),
    }
}

/// Where the projects are kept, below the home directory of the user. Fails
/// where the home directory is not known.
pub fn get_projects_dir() -> (r: CommandResult<String>)
    ensures
        r matches Ok(p) ==> exists|home: Seq<char>| p@ == projects_dir_spec(home),
        r matches Err(e) ==> e.is("validation_error"@, "Could not find home directory"@),
{
    match home_dir() {
        Some(home) => Ok(projects_dir_path(home.as_str())),
        None => Err(no_home_error()),
    }
}

/// Where a project is kept, below the home directory of the user. Fails
/// where the home directory is not known.
pub fn get_project_dir(project_id: &str) -> (r: CommandResult<String>)
    ensures
        r matches Ok(p) ==> exists|home: Seq<char>| p@ == project_dir_spec(home, project_id@),
        r matches Err(e) ==> e.is("validation_error"@, "Could not find home directory"@),
{
    match home_dir() {
        Some(home) => Ok(project_dir_path(home.as_str(), project_id)),
        None => Err(no_home_error()),
    }
}

/// The settings a project starts from: MP4 at 1920 by 1080 and 30 frames per
/// second, saved by itself every five minutes.
pub fn create_default_settings(project_id: &str) -> (r: ProjectSettings)
    ensures
        r.project_id@ == project_id@,
        r.default_video_format@ == "mp4"@,
        r.default_resolution@ == "1920x1080"@,
        r.default_framerate == 30,
        r.auto_save,
        r.auto_save_interval == 5,
{
    ProjectSettings {
        project_id: String::from_str(project_id),
        default_video_format: String::from_str("mp4"),
        default_resolution: String::from_str("1920x1080"),
        default_framerate: 30,
        auto_save: true,
        auto_save_interval: 5,
    }
}

/// The counters a project starts from: all at nothing.
pub fn create_empty_metadata(project_id: &str) -> (r: ProjectMetadata)
    ensures
        r.project_id@ == project_id@,
        r.total_clips == 0,
        r.total_duration == 0,
        r.export_count == 0,
        r.file_size == 0,
{
    ProjectMetadata {
        project_id: String::from_str(project_id),
        total_clips: 0,
        total_duration: 0,
        export_count: 0,
        file_size: 0,
    }
}

/// The project that a request makes in the directory `project_dir` under
/// the identifier `project_id` at the time `now`: not active, with its media
/// and thumbnails in directories of their own below its own.
pub fn new_project(request: CreateProjectRequest, project_id: String, project_dir: &str, now: String)
    -> (r: Project)
    ensures
        r.id == project_id,
        r.name == request.name,
        r.description == Some(request.description),
        r.project_path@ == project_dir@,
        r.assets_path@ == path_join(project_dir@, "assets"@),
        r.thumbnails_path@ == path_join(project_dir@, "thumbnails"@),
        r.created_at@ == now@,
        r.updated_at == now,
        !r.is_active,
{
    Project {
        id: project_id,
        name: request.name,
        description: Some(request.description),
        project_path: String::from_str(project_dir),
        assets_path: join(project_dir, "assets"),
        thumbnails_path: join(project_dir, "thumbnails"),
        created_at: now.clone(),
        updated_at: now,
        is_active: false,
    }
}

/// The project that a request makes, under a new identifier, at the moment
/// of the call, below the home directory of the user. Fails where the home
/// directory is not known.
pub fn create_project(request: CreateProjectRequest) -> (r: CommandResult<Project>)
    ensures
        r matches Ok(p) ==> p.name == request.name && p.description == Some(request.description)
            && !p.is_active && p.assets_path@ == path_join(p.project_path@, "assets"@)
            && p.thumbnails_path@ == path_join(p.project_path@, "thumbnails"@) && exists|
            home: Seq<char>,
        | p.project_path@ == project_dir_spec(home, p.id@),
        r matches Err(e) ==> e.is("validation_error"@, "Could not find home directory"@),
{
    let project_id = new_uuid();
    match home_dir() {
        Some(home) => {
            let dir = project_dir_path(home.as_str(), project_id.as_str());
            Ok(new_project(request, project_id, dir.as_str(), utc_rfc3339()))
        },
        None => Err(no_home_error()),
    }
}

/// The project as it is once it has been opened at the time `now`: active,
/// and changed last just now.
pub fn opened_project(project: Project, now: String) -> (r: Project)
    ensures
        r == (Project { updated_at: now, is_active: true, ..project }),
{
    Project {
        id: project.id,
        name: project.name,
        description: project.description,
        project_path: project.project_path,
        assets_path: project.assets_path,
        thumbnails_path: project.thumbnails_path,
        created_at: project.created_at,
        updated_at: now,
        is_active: true,
    }
}

/// The error that there is no project of an identifier.
pub fn project_not_found(project_id: &str) -> (r: CommandError)
    ensures
        r.is("validation_error"@, "Project not found: "@ + project_id@),
{
    let mut m = String::from_str("Project not found: ");
    m.append(project_id);
    CommandError::validation_error(m)
}

/// The settings of a project: those read from its file where it has one, the
/// defaults where it has none.
pub fn settings_or_default(project_id: &str, stored: Option<ProjectSettings>) -> (r:
    ProjectSettings)
    ensures
        stored matches Some(s) ==> r == s,
        stored is None ==> r.project_id@ == project_id@ && r.default_framerate == 30,
{
    match stored {
        Some(s) => s,
        None => create_default_settings(project_id),
    }
}

/// The counters of a project: those read from its file where it has one,
/// nothing where it has none.
pub fn metadata_or_empty(project_id: &str, stored: Option<ProjectMetadata>) -> (r:
    ProjectMetadata)
    ensures
        stored matches Some(s) ==> r == s,
        stored is None ==> r.project_id@ == project_id@ && r.total_clips == 0,
{
    match stored {
        Some(s) => s,
        None => create_empty_metadata(project_id),
    }
}

impl Project {
    /// A copy of the project.
    pub fn duplicate(&self) -> (r: Self)
        ensures
            r == *self,
    {
        Project {
            id: self.id.clone(),
            name: self.name.clone(),
            description: clone_opt(&self.description),
            project_path: self.project_path.clone(),
            assets_path: self.assets_path.clone(),
            thumbnails_path: self.thumbnails_path.clone(),
            created_at: self.created_at.clone(),
            updated_at: self.updated_at.clone(),
            is_active: self.is_active,
        }
    }
}

/// Whether project `a` is listed before project `b`: it was changed later,
/// by the text of the time.
pub open spec fn listed_before(a: Project, b: Project) -> bool {
    text_precedes_spec(b.updated_at@, a.updated_at@)
}

/// `project` put into the list `sorted`: behind every project that it is not
/// listed before.
pub open spec fn insert_project(sorted: Seq<Project>, project: Project) -> Seq<Project>
    decreases sorted.len(),
{
    if sorted.len() > 0 && listed_before(project, sorted.last()) {
        insert_project(sorted.drop_last(), project).push(sorted.last())
    } else {
        sorted.push(project)
    }
}

/// The projects as they are listed: the one changed last first; projects
/// changed at the same time keep the order in which they came.
pub open spec fn listed_projects(projects: Seq<Project>) -> Seq<Project>
    decreases projects.len(),
{
    if projects.len() == 0 {
        Seq::<Project>::empty()
    } else {
        insert_project(listed_projects(projects.drop_last()), projects.last())
    }
}

/// Where `insert_project` puts the project.
pub proof fn lemma_insert_project_position(sorted: Seq<Project>, project: Project, p: int)
    requires
        0 <= p <= sorted.len(),
        forall|j: int| p <= j < sorted.len() ==> listed_before(project, #[trigger] sorted[j]),
        p == 0 || !listed_before(project, sorted[p - 1]),
    ensures
        insert_project(sorted, project) == sorted.insert(p, project),
    decreases sorted.len(),
{
    if p == sorted.len() {
        assert(sorted.insert(p, project) =~= sorted.push(project));
    } else {
        let rest = sorted.drop_last();
        assert(listed_before(project, sorted[sorted.len() - 1]));
        assert forall|j: int| p <= j < rest.len() implies listed_before(
            project,
            #[trigger] rest[j],
        ) by {
            assert(rest[j] == sorted[j]);
        }
        lemma_insert_project_position(rest, project, p);
        assert(rest.insert(p, project).push(sorted.last()) =~= sorted.insert(p, project));
    }
}

/// The projects in the order in which they are listed: the one changed last
/// first.
pub fn sort_projects_by_recency(projects: &Vec<Project>) -> (r: Vec<Project>)
    ensures
        r@ == listed_projects(projects@),
{
    let mut out: Vec<Project> = Vec::new();
    assert(out@ =~= listed_projects(projects@.take(0)));
    let mut i: usize = 0;
    while i < projects.len()
        invariant
            i <= projects.len(),
            out@ == listed_projects(projects@.take(i as int)),
        decreases projects.len() - i,
    {
        let project = projects[i].duplicate();
        let mut p: usize = out.len();
        while p > 0 && text_precedes(out[p - 1].updated_at.as_str(), project.updated_at.as_str())
            invariant
                p <= out.len(),
                forall|j: int| p <= j < out.len() ==> listed_before(project, #[trigger] out@[j]),
            decreases p,
        {
            p -= 1;
        }
        proof {
            lemma_insert_project_position(out@, project, p as int);
            let t = projects@.take(i + 1);
            assert(t.drop_last() =~= projects@.take(i as int));
            assert(t.last() == project);
        }
        out.insert(p, project);
        i += 1;
    }
    assert(projects@.take(projects.len() as int) =~= projects@);
    out
}

} // verus!
