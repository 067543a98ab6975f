//! Projects, the files that keep them, and the questions by which one is taken down.

use crate::cli::{
    asks, is_known, kept_text, name_given, name_text, Answer, Named, Next, Question,
};
use crate::client::{lowercase_all, names_of};
use crate::completion::{texts, PrefixAutocomplete};
use crate::id::{decoded_ids, filename_of, id_texts, ids_from_filenames, Id};
use crate::text::lowercase;
use vstd::prelude::*;

verus! {

/// A piece of work for a client. The client is named, not held: it is looked up when
/// it is needed, and may then be missing.
#[derive(Clone, Debug)]
pub struct Project {
    pub name: Id,
    pub description: String,
    pub client_ref: Id,
}

impl Project {
    /// The name of the file that keeps this project.
    pub fn filename(&self) -> (name: String)
        ensures
            name@ == filename_of(self.name@),
    {
        self.name.to_filename()
    }

    /// The names of the projects on record, read from the names of the files in their
    /// directory. A file whose name does not read back as a name is passed over.
    pub fn list(filenames: &Vec<String>) -> (names: Vec<Id>)
        ensures
            id_texts(names@) == decoded_ids(texts(filenames@)),
    {
        ids_from_filenames(filenames)
    }

    /// The question for the name of a project, which offers the known names.
    pub fn name_question(known: &Vec<Id>) -> (q: Question)
        ensures
            q matches Question::Name { message, known: offered } && message == "Project Name:"
                && texts(offered@) == id_texts(known@),
    {
        Question::Name { message: "Project Name:", known: names_of(known) }
    }

    /// Decides whether the project that was named is on record or is to be made: see
    /// [`name_given`].
    pub fn get_or_create_from_user_input(known: &Vec<Id>, answer: Answer) -> (r: Named)
        ensures
            match r {
                Named::Missing => name_text(answer) is None,
                Named::Known(id) => name_text(answer) matches Some(s) && id@ == s@ && is_known(
                    known@,
                    s@,
                ),
                Named::New(id) => name_text(answer) matches Some(s) && id@ == s@ && !is_known(
                    known@,
                    s@,
                ),
            },
    {
        name_given(known, answer)
    }

    /// Begins to take down the project called `name`.
    pub fn create_from_user_input_with_name(name: Id) -> (form: ProjectForm)
        ensures
            form == (ProjectForm::Description { name }),
    {
        ProjectForm::Description { name }
    }
}

/// A project as it is being taken down: its description, then its client, then the
/// review of the whole.
#[derive(Debug)]
pub enum ProjectForm {
    Description { name: Id },
    Client { name: Id, description: String },
    Review(Project),
    Done(Project),
}

/// The question for the description of a project.
pub open spec fn description_question() -> Question {
    Question::Text {
        message: "Project Description:",
        placeholder: Some("Doing what we can, one day at a time."),
        required: true,
    }
}

/// Whether `next` is what a form is to do: ask for the description; have the client
/// named; show the project for review; or nothing, once that is done.
pub open spec fn project_next(form: ProjectForm, next: Next<Project>) -> bool {
    match form {
        ProjectForm::Description { .. } => asks(next, None, description_question()),
        ProjectForm::Client { .. } => asks(next, None, Question::Client),
        ProjectForm::Review(project) => next == Next::Review(&project),
        ProjectForm::Done(_) => next is Done,
    }
}

/// The form after an answer: the description is asked for until it is given, and so is
/// the name of the client, which makes the project complete but for its review.
pub open spec fn project_after(form: ProjectForm, answer: Answer) -> ProjectForm {
    match form {
        ProjectForm::Description { name } => match kept_text(answer) {
            Some(description) => ProjectForm::Client { name, description },
            None => form,
        },
        ProjectForm::Client { name, description } => match name_text(answer) {
            Some(client) => ProjectForm::Review(
                Project { name, description, client_ref: Id::new_spec(client) },
            ),
            None => form,
        },
        _ => form,
    }
}

/// The form after the review: the project as it was corrected is the project.
pub open spec fn project_reviewed(form: ProjectForm, edited: Project) -> ProjectForm {
    match form {
        ProjectForm::Review(_) => ProjectForm::Done(edited),
        _ => form,
    }
}

impl ProjectForm {
    /// What to do next: see [`project_next`].
    pub fn next(&self) -> (next: Next<'_, Project>)
        ensures
            project_next(*self, next),
    {
        match self {
            ProjectForm::Description { .. } => Next::Ask {
                title: None,
                question: Question::Text {
                    message: "Project Description:",
                    placeholder: Some("Doing what we can, one day at a time."),
                    required: true,
                },
            },
            ProjectForm::Client { .. } => Next::Ask { title: None, question: Question::Client },
            ProjectForm::Review(project) => Next::Review(project),
            ProjectForm::Done(_) => Next::Done,
        }
    }

    /// Takes the answer to the question: see [`project_after`].
    pub fn answer(self, answer: Answer) -> (form: ProjectForm)
        ensures
            form == project_after(self, answer),
    {
        match self {
            ProjectForm::Description { name } => match answer.into_kept_text() {
                Some(description) => ProjectForm::Client { name, description },
                None => ProjectForm::Description { name },
            },
            ProjectForm::Client { name, description } => match answer.into_name() {
                Some(client_ref) => ProjectForm::Review(Project { name, description, client_ref }),
                None => ProjectForm::Client { name, description },
            },
            form => form,
        }
    }

    /// Takes the project as it was corrected: see [`project_reviewed`].
    pub fn reviewed(self, edited: Project) -> (form: ProjectForm)
        ensures
            form == project_reviewed(self, edited),
    {
        match self {
            ProjectForm::Review(_) => ProjectForm::Done(edited),
            form => form,
        }
    }

    /// The project, once it has been reviewed; else the form, to go on with.
    pub fn finish(self) -> (r: Result<Project, ProjectForm>)
        ensures
            r == match self {
                ProjectForm::Done(project) => Ok::<Project, ProjectForm>(project),
                _ => Err(self),
            },
    {
        match self {
            ProjectForm::Done(project) => Ok(project),
            form => Err(form),
        }
    }
}

/// The names of the projects, to complete a typed name against.
#[derive(Clone, Debug)]
pub struct ProjectAutocomplete {
    project_names: Vec<String>,
    lowercase_names: Vec<String>,
}

impl ProjectAutocomplete {
    /// Whether the lowercase names are the lowercase forms of the names, one for one.
    /// It is so of every value that [`ProjectAutocomplete::new`] makes.
    pub closed spec fn wf(&self) -> bool {
        texts(self.lowercase_names@) == texts(self.project_names@).map_values(
            |c: Seq<char>| lowercase(c),
        )
    }

    pub fn new(project_ids: Vec<Id>) -> (r: ProjectAutocomplete)
        ensures
            r.wf(),
            r.options() == id_texts(project_ids@),
            r.lowercase_options() == r.options().map_values(|c: Seq<char>| lowercase(c)),
    {
        let project_names = names_of(&project_ids);
        let lowercase_names = lowercase_all(&project_names);
        ProjectAutocomplete { project_names, lowercase_names }
    }
}

impl PrefixAutocomplete for ProjectAutocomplete {
    closed spec fn options(&self) -> Seq<Seq<char>> {
        texts(self.project_names@)
    }

    closed spec fn lowercase_options(&self) -> Seq<Seq<char>> {
        texts(self.lowercase_names@)
    }

    fn get_options(&self) -> (r: &[String]) {
        self.project_names.as_slice()
    }

    fn get_lowercase_options(&self) -> (r: &[String]) {
        self.lowercase_names.as_slice()
    }
}

} // verus!
