//! Finding a program, and running it.
//!
//! A name that holds a `/` is a path and is looked at directly.  Any other
//! name is searched in the directories of `PATH`, in their order.  The
//! search does not touch the file system itself: it says what it needs to
//! know next, and goes on when it is told.  The run of the program that was
//! found is described in [`crate::external`].

use vstd::prelude::*;
pub use crate::external::execute_external_command;
use crate::text::{contains_char, lemma_pieces_not_empty, pieces, split};

verus! {

/// What the file system knows of a file.
#[derive(Debug, Clone, Copy, PartialEq, Eq, Structural)]
pub struct FileMeta {
    /// Whether it is a regular file.
    pub is_file: bool,
    /// Its permission bits.
    pub mode: u32,
}

/// One entry of a directory.
#[derive(Debug)]
pub struct DirEntry {
    pub file_name: String,
    /// The path that leads to the entry.
    pub path: String,
    /// `None` where the metadata could not be read.
    pub metadata: Option<FileMeta>,
}

/// What came of reading a directory.
#[derive(Debug)]
pub enum DirListing {
    /// The entries in the order in which the system gave them; `None` stands
    /// for an entry that could not be read.
    Entries(Vec<Option<DirEntry>>),
    /// There is no such directory.
    NotFound,
    /// The directory could not be read; the text says why.
    Failed(String),
}

/// Whether a file can be run: a regular file that its owner, its group or
/// anybody else may execute.
pub open spec fn is_executable(meta: FileMeta) -> bool {
    meta.is_file && meta.mode & 0o111 != 0
}

/// Whether the file system knows a file that can be run.
pub open spec fn is_executable_file(meta: Option<FileMeta>) -> bool {
    meta matches Some(meta) && is_executable(meta)
}

/// Whether a directory entry is the program `name`.
pub open spec fn is_program(entry: Option<DirEntry>, name: Seq<char>) -> bool {
    entry matches Some(entry) && entry.file_name@ == name && is_executable_file(entry.metadata)
}

/// The path of the first entry that is the program `name`.
pub open spec fn first_program(entries: Seq<Option<DirEntry>>, name: Seq<char>) -> Option<
    Seq<char>,
>
    decreases entries.len(),
{
    if entries.len() == 0 {
        None
    } else if is_program(entries[0], name) {
        Some(entries[0]->Some_0.path@)
    } else {
        first_program(entries.skip(1), name)
    }
}

/// What a directory holds of the program `name`: its path, nothing, or
/// the reason why the directory could not be read.  A directory that does
/// not exist holds nothing.
pub open spec fn program_in(listing: DirListing, name: Seq<char>) -> Result<
    Option<Seq<char>>,
    Seq<char>,
> {
    match listing {
        DirListing::Entries(entries) => Ok(first_program(entries@, name)),
        DirListing::NotFound => Ok(None),
        DirListing::Failed(reason) => Err(reason@),
    }
}

/// The first program is the entry before which no entry is the program.
pub proof fn lemma_first_program(entries: Seq<Option<DirEntry>>, name: Seq<char>)
    ensures
        match first_program(entries, name) {
            Some(path) => exists|i: int|
                0 <= i < entries.len() && is_program(#[trigger] entries[i], name)
                    && entries[i]->Some_0.path@ == path && forall|j: int|
                    0 <= j < i ==> !is_program(#[trigger] entries[j], name),
            None => forall|i: int|
                0 <= i < entries.len() ==> !is_program(#[trigger] entries[i], name),
        },
    decreases entries.len(),
{
    if entries.len() > 0 && !is_program(entries[0], name) {
        let rest = entries.skip(1);
        lemma_first_program(rest, name);
        match first_program(rest, name) {
            Some(path) => {
                let i = choose|i: int|
                    0 <= i < rest.len() && is_program(#[trigger] rest[i], name)
                        && rest[i]->Some_0.path@ == path && forall|j: int|
                        0 <= j < i ==> !is_program(#[trigger] rest[j], name);
                assert forall|j: int| 0 <= j < i + 1 implies !is_program(
                    #[trigger] entries[j],
                    name,
                ) by {
                    if j > 0 {
                        assert(entries[j] == rest[j - 1]);
                    }
                }
            },
            None => {
                assert forall|i: int| 0 <= i < entries.len() implies !is_program(
                    #[trigger] entries[i],
                    name,
                ) by {
                    if i > 0 {
                        assert(entries[i] == rest[i - 1]);
                    }
                }
            },
        }
    }
}

/// The texts that a result of a search in a directory holds.
pub open spec fn found_view(result: Result<Option<String>, String>) -> Result<
    Option<Seq<char>>,
    Seq<char>,
> {
    match result {
        Ok(Some(path)) => Ok(Some(path@)),
        Ok(None) => Ok(None),
        Err(reason) => Err(reason@),
    }
}

/// Whether the file system knows a file that can be run.
pub fn can_execute(meta: &Option<FileMeta>) -> (runs: bool)
    ensures
        runs == is_executable_file(*meta),
{
    match meta {
        Some(meta) => meta.is_file && meta.mode & 0o111 != 0,
        None => false,
    }
}

/// Searches the listing of one directory for the program `name`.
pub fn find_exec_in_dir(listing: &DirListing, name: &str) -> (result: Result<
    Option<String>,
    String,
>)
    ensures
        found_view(result) == program_in(*listing, name@),
{
    match listing {
        DirListing::Entries(entries) => {
            let mut i: usize = 0;
            assert(entries@.skip(0) =~= entries@);
            while i < entries.len()
                invariant
                    i <= entries.len(),
                    program_in(*listing, name@) == Ok::<Option<Seq<char>>, Seq<char>>(
                        first_program(entries@, name@),
                    ),
                    first_program(entries@, name@) == first_program(entries@.skip(i as int), name@),
                decreases entries.len() - i,
            {
                assert(entries@.skip(i as int).skip(1) =~= entries@.skip(i + 1));
                match &entries[i] {
                    Some(entry) => {
                        if entry.file_name.as_str().eq(name) && can_execute(&entry.metadata) {
                            return Ok(Some(entry.path.clone()));
                        }
                    },
                    None => {},
                }
                i += 1;
            }
            Ok(None)
        },
        DirListing::NotFound => Ok(None),
        DirListing::Failed(reason) => Err(reason.clone()),
    }
}

/// What a search needs to know next.
#[derive(Debug, PartialEq, Eq)]
pub enum Probe {
    /// What the file system knows of the file at this path.
    Metadata(String),
    /// The value of `PATH`.
    PathVariable,
    /// The entries of this directory.
    Directory(String),
}

/// A probe as a value.
pub enum ProbeView {
    Metadata(Seq<char>),
    PathVariable,
    Directory(Seq<char>),
}

impl View for Probe {
    type V = ProbeView;

    open spec fn view(&self) -> ProbeView {
        match self {
            Probe::Metadata(path) => ProbeView::Metadata(path@),
            Probe::PathVariable => ProbeView::PathVariable,
            Probe::Directory(path) => ProbeView::Directory(path@),
        }
    }
}

/// What the system answered to a probe.
#[derive(Debug)]
pub enum Answer {
    /// `None` where there is no such file, or where it could not be looked at.
    Metadata(Option<FileMeta>),
    /// `None` where the variable is not set.
    PathVariable(Option<String>),
    Directory(DirListing),
}

/// What a search does next.
#[derive(Debug, PartialEq, Eq)]
pub enum Step {
    /// The search goes on when this probe is answered.
    Ask(Probe),
    /// The search is over: the path of the program, if there is one.
    Done(Option<String>),
}

/// Where a search stands.
pub enum SearchStage {
    /// The name is a path; the search waits for its metadata.
    Direct,
    /// The search waits for the value of `PATH`.
    Variable,
    /// The search waits for the entries of the first of these directories;
    /// the others come after it.  There is at least one.
    Directories(Seq<Seq<char>>),
    Finished(Option<Seq<char>>),
}

/// A search as a value.
pub struct SearchView {
    pub name: Seq<char>,
    pub stage: SearchStage,
}

impl SearchView {
    /// Where the search for `name` starts.  A name with a `/` in it is a
    /// path.
    pub open spec fn start(name: Seq<char>) -> SearchView {
        SearchView {
            name,
            stage: if name.contains('/') {
                SearchStage::Direct
            } else {
                SearchStage::Variable
            },
        }
    }

    /// What the search needs to know next; nothing when it is over.
    pub open spec fn probe(self) -> Option<ProbeView> {
        match self.stage {
            SearchStage::Direct => Some(ProbeView::Metadata(self.name)),
            SearchStage::Variable => Some(ProbeView::PathVariable),
            SearchStage::Directories(dirs) => Some(ProbeView::Directory(dirs[0])),
            SearchStage::Finished(_) => None,
        }
    }

    /// The search through `dirs`, one after the other.
    pub open spec fn through(self, dirs: Seq<Seq<char>>) -> SearchView {
        SearchView {
            stage: if dirs.len() > 0 {
                SearchStage::Directories(dirs)
            } else {
                SearchStage::Finished(None)
            },
            ..self
        }
    }

    /// The search at its end.
    pub open spec fn finished(self, found: Option<Seq<char>>) -> SearchView {
        SearchView { stage: SearchStage::Finished(found), ..self }
    }

    /// The search after an answer.  A path is the program if it is a file
    /// that can be run.  Without `PATH` there is nothing to search.  A
    /// directory that holds the program ends the search; one that does not, or
    /// that could not be read, leaves the directories after it.  An answer
    /// to a question that the search did not ask changes nothing.
    pub open spec fn answer(self, answer: Answer) -> SearchView {
        match (self.stage, answer) {
            (SearchStage::Direct, Answer::Metadata(meta)) => self.finished(
                if is_executable_file(meta) {
                    Some(self.name)
                } else {
                    None
                },
            ),
            (SearchStage::Variable, Answer::PathVariable(Some(path))) => self.through(
                pieces(path@, ':'),
            ),
            (SearchStage::Variable, Answer::PathVariable(None)) => self.finished(None),
            (SearchStage::Directories(dirs), Answer::Directory(listing)) => match program_in(
                listing,
                self.name,
            ) {
                Ok(Some(path)) => self.finished(Some(path)),
                _ => self.through(dirs.skip(1)),
            },
            _ => self,
        }
    }

    /// The search after these answers, one after the other.
    pub open spec fn after(self, answers: Seq<Answer>) -> SearchView
        decreases answers.len(),
    {
        if answers.len() == 0 {
            self
        } else {
            self.after(answers.drop_last()).answer(answers.last())
        }
    }
}

/// What the system would answer to every probe.
pub struct World {
    /// What the file system knows of the file at a path.
    pub metadata: spec_fn(Seq<char>) -> Option<FileMeta>,
    /// The value of `PATH`.
    pub path_variable: Option<String>,
    /// What reading a directory gives.
    pub listing: spec_fn(Seq<char>) -> DirListing,
}

impl World {
    /// The answer to a probe.
    pub open spec fn answer(self, probe: ProbeView) -> Answer {
        match probe {
            ProbeView::Metadata(path) => Answer::Metadata((self.metadata)(path)),
            ProbeView::PathVariable => Answer::PathVariable(self.path_variable),
            ProbeView::Directory(path) => Answer::Directory((self.listing)(path)),
        }
    }

    /// The program `name` in the first of `dirs` that holds it.  A
    /// directory that cannot be read counts as one that does not hold it.
    pub open spec fn first_in(self, dirs: Seq<Seq<char>>, name: Seq<char>) -> Option<Seq<char>>
        decreases dirs.len(),
    {
        if dirs.len() == 0 {
            None
        } else {
            match program_in((self.listing)(dirs[0]), name) {
                Ok(Some(path)) => Some(path),
                _ => self.first_in(dirs.skip(1), name),
            }
        }
    }

    /// Where the program `name` lies.  A name with a `/` in it is a path: it
    /// is the program if it is a file that can be run, and neither `PATH` nor
    /// any directory has a say.  Any other name is looked for in the
    /// directories that `PATH` lists between colons, in their order.
    pub open spec fn locate(self, name: Seq<char>) -> Option<Seq<char>> {
        if name.contains('/') {
            if is_executable_file((self.metadata)(name)) {
                Some(name)
            } else {
                None
            }
        } else {
            match self.path_variable {
                Some(path) => self.first_in(pieces(path@, ':'), name),
                None => None,
            }
        }
    }
}

impl SearchView {
    /// An upper bound on the number of probes that the search still makes.
    pub open spec fn probes_left(self, world: World) -> nat {
        match self.stage {
            SearchStage::Direct => 1,
            SearchStage::Variable => match world.path_variable {
                Some(path) => 1 + pieces(path@, ':').len(),
                None => 1,
            },
            SearchStage::Directories(dirs) => dirs.len(),
            SearchStage::Finished(_) => 0,
        }
    }

    /// What the search will find in `world`, seen from this stage.
    pub open spec fn will_find(self, world: World) -> Option<Seq<char>> {
        match self.stage {
            SearchStage::Direct | SearchStage::Variable => world.locate(self.name),
            SearchStage::Directories(dirs) => world.first_in(dirs, self.name),
            SearchStage::Finished(found) => found,
        }
    }

    /// Whether the stage fits the name: a path is looked at directly, and
    /// nothing else is.
    pub open spec fn fits(self) -> bool {
        match self.stage {
            SearchStage::Direct => self.name.contains('/'),
            SearchStage::Variable => !self.name.contains('/'),
            SearchStage::Directories(dirs) => !self.name.contains('/') && dirs.len() > 0,
            SearchStage::Finished(_) => true,
        }
    }

    /// The search after `world` has answered up to `probes` probes.
    pub open spec fn run(self, world: World, probes: nat) -> SearchView
        decreases probes,
    {
        if probes == 0 {
            self
        } else {
            match self.probe() {
                Some(probe) => self.answer(world.answer(probe)).run(world, (probes - 1) as nat),
                None => self,
            }
        }
    }
}

/// An answer of `world` to the probe of a search brings the search one
/// probe nearer its end and leaves what it will find as it was.
pub proof fn lemma_answer_keeps_course(search: SearchView, world: World)
    requires
        search.fits(),
        search.probe() is Some,
    ensures
        search.answer(world.answer(search.probe()->Some_0)).fits(),
        search.answer(world.answer(search.probe()->Some_0)).will_find(world) == search.will_find(
            world,
        ),
        search.answer(world.answer(search.probe()->Some_0)).probes_left(world)
            < search.probes_left(world),
{
    match search.stage {
        SearchStage::Variable => {
            match world.path_variable {
                Some(path) => {
                    lemma_pieces_not_empty(path@, ':');
                },
                None => {},
            }
        },
        SearchStage::Directories(dirs) => {
            assert(dirs.skip(1).len() == 0 ==> world.first_in(dirs.skip(1), search.name) is None);
        },
        _ => {},
    }
}

/// A search that `world` answers ends, and it ends with the program as
/// `world` locates it.
pub proof fn lemma_search_locates(search: SearchView, world: World, probes: nat)
    requires
        search.fits(),
        probes >= search.probes_left(world),
    ensures
        search.run(world, probes).stage == SearchStage::Finished(search.will_find(world)),
    decreases probes,
{
    if probes == 0 {
    } else if search.probe() is Some {
        lemma_answer_keeps_course(search, world);
        lemma_search_locates(
            search.answer(world.answer(search.probe()->Some_0)),
            world,
            (probes - 1) as nat,
        );
    }
}

/// The search for a program finds it where `world` locates it.
pub proof fn lemma_find_exec_in_path(name: Seq<char>, world: World)
    ensures
        SearchView::start(name).run(world, SearchView::start(name).probes_left(world)).stage
            == SearchStage::Finished(world.locate(name)),
{
    lemma_search_locates(
        SearchView::start(name),
        world,
        SearchView::start(name).probes_left(world),
    );
}

/// The search for a name with a `/` in it never asks for `PATH` or for a
/// directory, whatever it is answered: it asks for the metadata of that
/// path and for nothing else, and it finds that path or nothing.
pub proof fn lemma_direct_path_ignores_path_variable(name: Seq<char>, answers: Seq<Answer>)
    requires
        name.contains('/'),
    ensures
        SearchView::start(name).after(answers).name == name,
        match SearchView::start(name).after(answers).stage {
            SearchStage::Direct => true,
            SearchStage::Finished(found) => found == Some(name) || found is None,
            _ => false,
        },
        match SearchView::start(name).after(answers).probe() {
            Some(probe) => probe == ProbeView::Metadata(name),
            None => true,
        },
    decreases answers.len(),
{
    if answers.len() > 0 {
        lemma_direct_path_ignores_path_variable(name, answers.drop_last());
    }
}

/// For a name with a `/` in it, two worlds that agree on that path locate
/// the same program, however their `PATH` and their directories differ.
pub proof fn lemma_locate_direct_path(name: Seq<char>, world: World, other: World)
    requires
        name.contains('/'),
        (world.metadata)(name) == (other.metadata)(name),
    ensures
        world.locate(name) == other.locate(name),
{
}

/// Where a search stands, with the directories and the place among them.
#[derive(Debug)]
enum Stage {
    Direct,
    Variable,
    Directories { dirs: Vec<String>, next: usize },
    Finished(Option<String>),
}

/// The search for one program.
#[derive(Debug)]
pub struct PathSearch {
    name: String,
    stage: Stage,
}

impl View for PathSearch {
    type V = SearchView;

    closed spec fn view(&self) -> SearchView {
        SearchView {
            name: self.name@,
            stage: match self.stage {
                Stage::Direct => SearchStage::Direct,
                Stage::Variable => SearchStage::Variable,
                Stage::Directories { dirs, next } => SearchStage::Directories(
                    dirs.deep_view().skip(next as int),
                ),
                Stage::Finished(found) => SearchStage::Finished(
                    match found {
                        Some(path) => Some(path@),
                        None => None,
                    },
                ),
            },
        }
    }
}

/// The text that an optional string holds.
pub open spec fn found_text(found: Option<String>) -> Option<Seq<char>> {
    match found {
        Some(path) => Some(path@),
        None => None,
    }
}

impl PathSearch {
    /// The stage fits the name, and the directory that is asked for is one
    /// of the directories.
    #[verifier::type_invariant]
    spec fn well_formed(self) -> bool {
        match self.stage {
            Stage::Direct => self.name@.contains('/'),
            Stage::Variable => !self.name@.contains('/'),
            Stage::Directories { dirs, next } => !self.name@.contains('/') && next < dirs.len(),
            Stage::Finished(_) => true,
        }
    }

    /// What the search does next.
    pub fn step(&self) -> (step: Step)
        ensures
            self@.fits(),
            match step {
                Step::Ask(probe) => self@.probe() == Some(probe@),
                Step::Done(found) => self@.stage == SearchStage::Finished(found_text(found)),
            },
    {
        proof {
            use_type_invariant(self);
        }
        match &self.stage {
            Stage::Direct => Step::Ask(Probe::Metadata(self.name.clone())),
            Stage::Variable => Step::Ask(Probe::PathVariable),
            Stage::Directories { dirs, next } => Step::Ask(Probe::Directory(dirs[*next].clone())),
            Stage::Finished(found) => Step::Done(
                match found {
                    Some(path) => Some(path.clone()),
                    None => None,
                },
            ),
        }
    }

    /// Goes on with the search after an answer.
    pub fn answer(self, answer: Answer) -> (next: PathSearch)
        ensures
            next@ == self@.answer(answer),
            next@.fits(),
    {
        proof {
            use_type_invariant(&self);
        }
        let PathSearch { name, stage } = self;
        match (stage, answer) {
            (Stage::Direct, Answer::Metadata(meta)) => {
                let found = if can_execute(&meta) {
                    Some(name.clone())
                } else {
                    None
                };
                PathSearch { name, stage: Stage::Finished(found) }
            },
            (Stage::Variable, Answer::PathVariable(Some(path))) => {
                let dirs = split(path.as_str(), ':');
                proof {
                    lemma_pieces_not_empty(path@, ':');
                    assert(dirs.deep_view().skip(0) =~= dirs.deep_view());
                }
                PathSearch { name, stage: Stage::Directories { dirs, next: 0 } }
            },
            (Stage::Variable, Answer::PathVariable(None)) => PathSearch {
                name,
                stage: Stage::Finished(None),
            },
            (Stage::Directories { dirs, next }, Answer::Directory(listing)) => {
                assert(dirs.deep_view().skip(next as int).skip(1) =~= dirs.deep_view().skip(
                    next + 1,
                ));
                match find_exec_in_dir(&listing, name.as_str()) {
                    Ok(Some(path)) => PathSearch { name, stage: Stage::Finished(Some(path)) },
                    _ => {
                        if next + 1 < dirs.len() {
                            PathSearch { name, stage: Stage::Directories { dirs, next: next + 1 } }
                        } else {
                            PathSearch { name, stage: Stage::Finished(None) }
                        }
                    },
                }
            },
            (stage, _) => PathSearch { name, stage },
        }
    }
}

/// Starts the search for the program `name`.
pub fn find_exec_in_path(name: &str) -> (search: PathSearch)
    ensures
        search@ == SearchView::start(name@),
        search@.fits(),
{
    if contains_char(name, '/') {
        PathSearch { name: name.to_string(), stage: Stage::Direct }
    } else {
        PathSearch { name: name.to_string(), stage: Stage::Variable }
    }
}

} // verus!
