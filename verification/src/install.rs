//! Finding the executables of a tool below a directory and moving them to the
//! tools directory: the decisions, one directory at a time.

use crate::errors::ServerError;
use crate::text::{lemma_filter_push, texts};
use vstd::prelude::*;

verus! {

/// One entry of a directory, as its listing reports it.
#[derive(Clone, Debug, PartialEq, Eq)]
pub struct DirectoryEntry {
    /// The entry's name, where it is valid Unicode.
    pub file_name: Option<String>,
    /// The entry's full path.
    pub path: String,
    /// Whether the entry is a directory.
    pub is_directory: bool,
}

/// A file to move into the destination directory, keeping its name.
#[derive(Debug, PartialEq, Eq)]
pub struct FileMove {
    pub source: String,
    pub file_name: String,
}

/// How a search ended.
#[derive(Debug, PartialEq, Eq)]
pub enum InstallationOutcome {
    /// Enough executables were moved.
    Success { found: Vec<String> },
    /// Some were moved, fewer than required.
    PartialFailure { found: Vec<String>, required: usize },
    /// None was found.
    NotFound,
}

/// What a search is waiting for.
#[derive(Clone, Copy, Debug, PartialEq, Eq, Structural)]
pub enum SearchPhase {
    /// The listing of a directory.
    Reading,
    /// The completion of the moves it asked for.
    Moving,
    /// Nothing: it has ended.
    Finished,
}

/// A search in progress.
#[derive(Debug, PartialEq, Eq)]
pub struct BinaryLocator {
    /// Where matching files are moved to.
    pub destination: String,
    /// The file names that are looked for.
    pub targets: Vec<String>,
    /// How many files must be moved for the search to succeed.
    pub minimum: usize,
    pub phase: SearchPhase,
    /// The directories still to be read; the last one is read next.
    pub pending: Vec<String>,
    /// The names of the files whose move has been asked for.
    pub moving: Vec<String>,
    /// The names of the files moved so far, one for each file.
    pub found: Vec<String>,
}

/// What the outside world reports back to a search.
#[derive(Debug, PartialEq, Eq)]
pub enum SearchEvent {
    /// The entries of the directory that was to be read, or why it could not
    /// be read.
    DirectoryRead(Result<Vec<DirectoryEntry>, String>),
    /// Every requested move was made, or why one was not.
    FilesMoved(Result<(), String>),
}

/// What a search asks of the outside world.
#[derive(Debug, PartialEq, Eq)]
pub enum SearchAction {
    /// List this directory.
    ReadDirectory(String),
    /// Move these files, in this order, into the destination directory.
    MoveFiles { moves: Vec<FileMove>, destination: String },
    /// The search has ended.
    Finish(InstallationOutcome),
    /// The search cannot go on.
    Fail(ServerError),
}

/// An entry that is moved: a file, not a directory, whose name is looked for.
pub open spec fn is_wanted(entry: DirectoryEntry, targets: Seq<Seq<char>>) -> bool {
    &&& !entry.is_directory
    &&& entry.file_name matches Some(name)
    &&& targets.contains(name@)
}

/// The move asked for an entry.
pub open spec fn move_of(entry: DirectoryEntry) -> FileMove {
    FileMove { source: entry.path, file_name: entry.file_name->0 }
}

/// The paths of the directories among `entries`, in their order.
pub open spec fn subdirectories(entries: Seq<DirectoryEntry>) -> Seq<String> {
    entries.filter(|e: DirectoryEntry| e.is_directory).map_values(|e: DirectoryEntry| e.path)
}

/// The moves asked for `entries`, in their order.
pub open spec fn wanted_files(entries: Seq<DirectoryEntry>, targets: Seq<Seq<char>>) -> Seq<
    FileMove,
> {
    entries.filter(|e: DirectoryEntry| is_wanted(e, targets)).map_values(
        |e: DirectoryEntry| move_of(e),
    )
}

/// The names of the files that `moves` move.
pub open spec fn names_of(moves: Seq<FileMove>) -> Seq<String> {
    moves.map_values(|m: FileMove| m.file_name)
}

/// The verdict on `found` files moved where `minimum` are required: nothing
/// found is `NotFound`, enough is `Success`, anything between is a
/// `PartialFailure`.
pub open spec fn outcome_is(
    outcome: InstallationOutcome,
    found: Seq<String>,
    minimum: usize,
) -> bool {
    match outcome {
        InstallationOutcome::NotFound => found.len() == 0,
        InstallationOutcome::Success { found: moved } => moved@ == found && found.len() > 0
            && found.len() >= minimum,
        InstallationOutcome::PartialFailure { found: moved, required } => moved@ == found
            && required == minimum && 0 < found.len() < minimum,
    }
}

/// The failure, if any, that an outcome stands for.
pub open spec fn result_is(
    outcome: InstallationOutcome,
    r: Result<Vec<String>, ServerError>,
) -> bool {
    match outcome {
        InstallationOutcome::Success { found } => r == Ok::<Vec<String>, ServerError>(found),
        InstallationOutcome::PartialFailure { found, required } => r == Err::<
            Vec<String>,
            ServerError,
        >(ServerError::PartialInstallation { found, required }),
        InstallationOutcome::NotFound => r == Err::<Vec<String>, ServerError>(
            ServerError::NoBinariesFound,
        ),
    }
}

/// What a search keeps from step to step.
pub open spec fn same_task(before: BinaryLocator, after: BinaryLocator) -> bool {
    &&& after.destination == before.destination
    &&& after.targets == before.targets
    &&& after.minimum == before.minimum
}

/// A search that has nothing left to move goes on to the directory that was
/// queued last, or ends with its verdict where none is queued.
pub open spec fn moved_on(
    task: BinaryLocator,
    pending: Seq<String>,
    found: Seq<String>,
    after: BinaryLocator,
    action: SearchAction,
) -> bool {
    if pending.len() > 0 {
        &&& same_task(task, after)
        &&& after.phase == SearchPhase::Reading
        &&& after.pending@ == pending.drop_last()
        &&& after.moving@ == Seq::<String>::empty()
        &&& after.found@ == found
        &&& action == SearchAction::ReadDirectory(pending.last())
    } else {
        &&& after.phase == SearchPhase::Finished
        &&& action matches SearchAction::Finish(outcome)
        &&& outcome_is(outcome, found, task.minimum)
    }
}

/// One step of a search: what it becomes, and what it asks for, on an event.
pub open spec fn search_stepped(
    before: BinaryLocator,
    event: SearchEvent,
    after: BinaryLocator,
    action: SearchAction,
) -> bool {
    match (before.phase, event) {
        (SearchPhase::Reading, SearchEvent::DirectoryRead(Ok(entries))) => {
            let pending = before.pending@ + subdirectories(entries@);
            let moves = wanted_files(entries@, texts(before.targets@));
            if moves.len() > 0 {
                &&& same_task(before, after)
                &&& after.phase == SearchPhase::Moving
                &&& after.pending@ == pending
                &&& after.moving@ == names_of(moves)
                &&& after.found@ == before.found@
                &&& action matches SearchAction::MoveFiles { moves: asked, destination }
                &&& asked@ == moves
                &&& destination == before.destination
            } else {
                moved_on(before, pending, before.found@, after, action)
            }
        },
        (SearchPhase::Moving, SearchEvent::FilesMoved(Ok(()))) => moved_on(
            before,
            before.pending@,
            before.found@ + before.moving@,
            after,
            action,
        ),
        (SearchPhase::Reading, SearchEvent::DirectoryRead(Err(cause))) => {
            &&& after.phase == SearchPhase::Finished
            &&& action == SearchAction::Fail(ServerError::DiskFailure(cause))
        },
        (SearchPhase::Moving, SearchEvent::FilesMoved(Err(cause))) => {
            &&& after.phase == SearchPhase::Finished
            &&& action == SearchAction::Fail(ServerError::DiskFailure(cause))
        },
        _ => {
            &&& after.phase == SearchPhase::Finished
            &&& action == SearchAction::Fail(ServerError::UnexpectedEvent)
        },
    }
}

impl InstallationOutcome {
    /// The verdict on the files in `found` where `minimum` are required.
    pub fn of(found: Vec<String>, minimum: usize) -> (outcome: InstallationOutcome)
        ensures
            outcome_is(outcome, found@, minimum),
            outcome is NotFound <==> found@.len() == 0,
            outcome is Success <==> found@.len() > 0 && found@.len() >= minimum,
            outcome is PartialFailure <==> 0 < found@.len() < minimum,
    {
        if found.len() == 0 {
            InstallationOutcome::NotFound
        } else if found.len() >= minimum {
            InstallationOutcome::Success { found }
        } else {
            InstallationOutcome::PartialFailure { found, required: minimum }
        }
    }

    /// The names moved, or the failure that the outcome stands for:
    /// `NoBinariesFound` for `NotFound`, `PartialInstallation` with the names
    /// and the required number for `PartialFailure`.
    pub fn into_result(self) -> (r: Result<Vec<String>, ServerError>)
        ensures
            result_is(self, r),
    {
        match self {
            InstallationOutcome::Success { found } => Ok(found),
            InstallationOutcome::PartialFailure { found, required } => Err(
                ServerError::PartialInstallation { found, required },
            ),
            InstallationOutcome::NotFound => Err(ServerError::NoBinariesFound),
        }
    }
}

/// Whether `name` is one of `targets`.
pub fn is_target(targets: &Vec<String>, name: &String) -> (r: bool)
    ensures
        r == texts(targets@).contains(name@),
{
    let mut i: usize = 0;
    while i < targets.len()
        invariant
            i <= targets.len(),
            forall|k: int| 0 <= k < i ==> texts(targets@)[k] != name@,
        decreases targets.len() - i,
    {
        if targets[i].eq(name) {
            assert(texts(targets@)[i as int] == name@);
            return true;
        }
        i = i + 1;
    }
    false
}

/// Sorts the entries of one directory: the directories to read later, and
/// the files to move now.
pub fn survey(entries: &Vec<DirectoryEntry>, targets: &Vec<String>) -> (r: (
    Vec<String>,
    Vec<FileMove>,
))
    ensures
        r.0@ == subdirectories(entries@),
        r.1@ == wanted_files(entries@, texts(targets@)),
{
    let mut directories: Vec<String> = Vec::new();
    let mut moves: Vec<FileMove> = Vec::new();
    let ghost is_dir = |e: DirectoryEntry| e.is_directory;
    let ghost wanted = |e: DirectoryEntry| is_wanted(e, texts(targets@));
    let mut i: usize = 0;
    proof {
        reveal(Seq::filter);
        assert(entries@.take(0) =~= Seq::<DirectoryEntry>::empty());
        assert(directories@ =~= subdirectories(entries@.take(0)));
        assert(moves@ =~= wanted_files(entries@.take(0), texts(targets@)));
    }
    while i < entries.len()
        invariant
            i <= entries.len(),
            is_dir == |e: DirectoryEntry| e.is_directory,
            wanted == |e: DirectoryEntry| is_wanted(e, texts(targets@)),
            directories@ == subdirectories(entries@.take(i as int)),
            moves@ == wanted_files(entries@.take(i as int), texts(targets@)),
        decreases entries.len() - i,
    {
        let entry = &entries[i];
        proof {
            let seen = entries@.take(i as int);
            assert(entries@.take(i + 1) =~= seen.push(*entry));
            lemma_filter_push(seen, *entry, is_dir);
            lemma_filter_push(seen, *entry, wanted);
            assert(seen.filter(is_dir).push(*entry).map_values(|e: DirectoryEntry| e.path)
                =~= seen.filter(is_dir).map_values(|e: DirectoryEntry| e.path).push(entry.path));
            assert(seen.filter(wanted).push(*entry).map_values(|e: DirectoryEntry| move_of(e))
                =~= seen.filter(wanted).map_values(|e: DirectoryEntry| move_of(e)).push(
                move_of(*entry),
            ));
        }
        if entry.is_directory {
            directories.push(entry.path.clone());
        } else {
            match &entry.file_name {
                Some(name) => {
                    if is_target(targets, name) {
                        moves.push(
                            FileMove { source: entry.path.clone(), file_name: name.clone() },
                        );
                    }
                },
                None => {},
            }
        }
        i = i + 1;
    }
    assert(entries@.take(entries.len() as int) =~= entries@);
    (directories, moves)
}

fn names(moves: &Vec<FileMove>) -> (r: Vec<String>)
    ensures
        r@ == names_of(moves@),
{
    let mut r: Vec<String> = Vec::new();
    let mut i: usize = 0;
    while i < moves.len()
        invariant
            i <= moves.len(),
            r@ == names_of(moves@.take(i as int)),
        decreases moves.len() - i,
    {
        r.push(moves[i].file_name.clone());
        i = i + 1;
        assert(moves@.take(i as int) =~= moves@.take(i - 1).push(moves@[i - 1]));
        assert(r@ =~= names_of(moves@.take(i as int)));
    }
    assert(moves@.take(moves.len() as int) =~= moves@);
    r
}

impl BinaryLocator {
    /// Begins a search below `root` for files named as one of `targets`, to
    /// be moved into `destination`: the root is read first.
    pub fn start(root: String, destination: String, targets: Vec<String>, minimum: usize) -> (r: (
        BinaryLocator,
        SearchAction,
    ))
        ensures
            r.0.destination == destination,
            r.0.targets == targets,
            r.0.minimum == minimum,
            r.0.phase == SearchPhase::Reading,
            r.0.pending@ == Seq::<String>::empty(),
            r.0.moving@ == Seq::<String>::empty(),
            r.0.found@ == Seq::<String>::empty(),
            r.1 == SearchAction::ReadDirectory(root),
    {
        (
            BinaryLocator {
                destination,
                targets,
                minimum,
                phase: SearchPhase::Reading,
                pending: Vec::new(),
                moving: Vec::new(),
                found: Vec::new(),
            },
            SearchAction::ReadDirectory(root),
        )
    }

    fn halted(self) -> (r: BinaryLocator)
        ensures
            r.phase == SearchPhase::Finished,
    {
        BinaryLocator { phase: SearchPhase::Finished, ..self }
    }

    fn move_on(self) -> (r: (BinaryLocator, SearchAction))
        ensures
            moved_on(self, self.pending@, self.found@, r.0, r.1),
    {
        let mut search = self;
        match search.pending.pop() {
            Some(directory) => {
                search.phase = SearchPhase::Reading;
                search.moving = Vec::new();
                assert(search.pending@ =~= self.pending@.drop_last());
                (search, SearchAction::ReadDirectory(directory))
            },
            None => {
                let BinaryLocator { destination, targets, minimum, phase: _, pending, moving, found } =
                    search;
                let outcome = InstallationOutcome::of(found, minimum);
                (
                    BinaryLocator {
                        destination,
                        targets,
                        minimum,
                        phase: SearchPhase::Finished,
                        pending,
                        moving,
                        found: Vec::new(),
                    },
                    SearchAction::Finish(outcome),
                )
            },
        }
    }
}

/// Takes a search one step further on an event: after a listing it queues
/// the directories found and asks for the matching files to be moved; after
/// the moves it counts them as found; then it reads the directory queued
/// last, or ends with its verdict where none is left. A failure reported by
/// the file system ends the search with `DiskFailure`.
pub fn search_and_move_binaries(search: BinaryLocator, event: SearchEvent) -> (r: (
    BinaryLocator,
    SearchAction,
))
    ensures
        search_stepped(search, event, r.0, r.1),
{
    let mut search = search;
    match (search.phase, event) {
        (SearchPhase::Reading, SearchEvent::DirectoryRead(Ok(entries))) => {
            let (mut directories, moves) = survey(&entries, &search.targets);
            search.pending.append(&mut directories);
            if moves.len() > 0 {
                search.moving = names(&moves);
                search.phase = SearchPhase::Moving;
                let destination = search.destination.clone();
                (search, SearchAction::MoveFiles { moves, destination })
            } else {
                search.move_on()
            }
        },
        (SearchPhase::Moving, SearchEvent::FilesMoved(Ok(()))) => {
            let mut moved = Vec::new();
            moved.append(&mut search.moving);
            search.found.append(&mut moved);
            search.move_on()
        },
        (SearchPhase::Reading, SearchEvent::DirectoryRead(Err(cause))) => (
            search.halted(),
            SearchAction::Fail(ServerError::DiskFailure(cause)),
        ),
        (SearchPhase::Moving, SearchEvent::FilesMoved(Err(cause))) => (
            search.halted(),
            SearchAction::Fail(ServerError::DiskFailure(cause)),
        ),
        _ => (search.halted(), SearchAction::Fail(ServerError::UnexpectedEvent)),
    }
}

/// What a search has been told and has asked for so far.
pub struct SearchHistory {
    /// The directory that the search began at.
    pub root: String,
    /// The directories whose listing was asked for, in order.
    pub read: Seq<String>,
    /// The listings that were delivered, in order.
    pub listings: Seq<Seq<DirectoryEntry>>,
}

/// The directories that the listings reported.
pub open spec fn reported_directories(listings: Seq<Seq<DirectoryEntry>>) -> Seq<String>
    decreases listings.len(),
{
    if listings.len() == 0 {
        Seq::empty()
    } else {
        reported_directories(listings.drop_last()) + subdirectories(listings.last())
    }
}

/// The names of the wanted files that the listings reported, one for each
/// file.
pub open spec fn reported_files(listings: Seq<Seq<DirectoryEntry>>, targets: Seq<Seq<char>>) -> Seq<
    String,
>
    decreases listings.len(),
{
    if listings.len() == 0 {
        Seq::empty()
    } else {
        reported_files(listings.drop_last(), targets) + names_of(
            wanted_files(listings.last(), targets),
        )
    }
}

/// The history after one more step.
pub open spec fn recorded(
    history: SearchHistory,
    event: SearchEvent,
    action: SearchAction,
) -> SearchHistory {
    SearchHistory {
        root: history.root,
        read: match action {
            SearchAction::ReadDirectory(directory) => history.read.push(directory),
            _ => history.read,
        },
        listings: match event {
            SearchEvent::DirectoryRead(Ok(entries)) => history.listings.push(entries@),
            _ => history.listings,
        },
    }
}

/// The search is where its history says: each directory that was reported,
/// and the root, has been read or is waiting to be read, as often as it was
/// reported; and each wanted file that was reported is counted as found or
/// is being moved.
pub open spec fn follows(search: BinaryLocator, history: SearchHistory) -> bool {
    &&& (seq![history.root] + reported_directories(history.listings)).to_multiset()
        == history.read.to_multiset().add(search.pending@.to_multiset())
    &&& search.found@ + search.moving@ == reported_files(history.listings, texts(search.targets@))
    &&& search.phase == SearchPhase::Reading ==> search.moving@.len() == 0
}

/// A search that has just begun is where its history says.
pub proof fn lemma_search_begins(search: BinaryLocator, root: String)
    requires
        search.phase == SearchPhase::Reading,
        search.pending@.len() == 0,
        search.moving@.len() == 0,
        search.found@.len() == 0,
    ensures
        follows(search, SearchHistory { root, read: seq![root], listings: Seq::empty() }),
{
    let none = Seq::<Seq<DirectoryEntry>>::empty();
    assert(seq![root] + reported_directories(none) =~= seq![root]);
    assert(search.pending@ =~= Seq::<String>::empty());
    assert(seq![root].to_multiset().add(search.pending@.to_multiset()) =~= seq![root].to_multiset())
        by {
        broadcast use vstd::seq_lib::group_to_multiset_ensures;

    }
    assert(search.found@ + search.moving@ =~= reported_files(none, texts(search.targets@)));
}

proof fn lemma_moved_on_follows(
    task: BinaryLocator,
    pending: Seq<String>,
    found: Seq<String>,
    after: BinaryLocator,
    action: SearchAction,
    read: Seq<String>,
)
    requires
        moved_on(task, pending, found, after, action),
        pending.len() > 0,
    ensures
        action matches SearchAction::ReadDirectory(directory) && read.push(directory).to_multiset().add(
            after.pending@.to_multiset(),
        ) == read.to_multiset().add(pending.to_multiset()),
{
    broadcast use vstd::seq_lib::group_to_multiset_ensures;

    let directory = pending.last();
    assert(pending =~= pending.drop_last().push(directory));
    assert(read.push(directory).to_multiset() =~= read.to_multiset().insert(directory));
    assert(pending.to_multiset() =~= pending.drop_last().to_multiset().insert(directory));
    assert(read.to_multiset().insert(directory).add(pending.drop_last().to_multiset())
        =~= read.to_multiset().add(pending.drop_last().to_multiset().insert(directory)));
}

/// A step keeps the search where its history says, as long as the search
/// goes on.
pub proof fn lemma_search_follows(
    before: BinaryLocator,
    history: SearchHistory,
    event: SearchEvent,
    after: BinaryLocator,
    action: SearchAction,
)
    requires
        follows(before, history),
        search_stepped(before, event, after, action),
        after.phase != SearchPhase::Finished,
    ensures
        follows(after, recorded(history, event, action)),
{
    let next = recorded(history, event, action);
    let reported = seq![history.root] + reported_directories(history.listings);
    match (before.phase, event) {
        (SearchPhase::Reading, SearchEvent::DirectoryRead(Ok(entries))) => {
            let added = subdirectories(entries@);
            let pending = before.pending@ + added;
            let moves = wanted_files(entries@, texts(before.targets@));
            assert(next.listings.drop_last() =~= history.listings);
            assert(seq![history.root] + reported_directories(next.listings) =~= reported + added);
            vstd::seq_lib::lemma_multiset_commutative(reported, added);
            vstd::seq_lib::lemma_multiset_commutative(before.pending@, added);
            assert(reported.to_multiset().add(added.to_multiset()) =~= history.read.to_multiset().add(
                pending.to_multiset(),
            ));
            assert(before.moving@ =~= Seq::<String>::empty());
            if moves.len() > 0 {
                assert(after.found@ + after.moving@ =~= before.found@ + before.moving@ + names_of(
                    moves,
                ));
            } else {
                lemma_moved_on_follows(before, pending, before.found@, after, action, history.read);
                assert(names_of(moves) =~= Seq::<String>::empty());
                assert(after.found@ + after.moving@ =~= before.found@ + before.moving@ + names_of(
                    moves,
                ));
            }
        },
        (SearchPhase::Moving, SearchEvent::FilesMoved(Ok(()))) => {
            lemma_moved_on_follows(
                before,
                before.pending@,
                before.found@ + before.moving@,
                after,
                action,
                history.read,
            );
            assert(after.found@ + after.moving@ =~= before.found@ + before.moving@);
        },
        _ => {},
    }
}

/// When a search ends with a verdict, every directory that a listing
/// reported, and the root, was read as often as it was reported, and the
/// verdict counts the wanted files of all the listings, each once.
pub proof fn lemma_search_is_complete(
    before: BinaryLocator,
    history: SearchHistory,
    event: SearchEvent,
    after: BinaryLocator,
    action: SearchAction,
)
    requires
        follows(before, history),
        search_stepped(before, event, after, action),
        action is Finish,
    ensures
        (seq![history.root] + reported_directories(recorded(history, event, action).listings)).to_multiset()
            == recorded(history, event, action).read.to_multiset(),
        outcome_is(
            action->Finish_0,
            reported_files(recorded(history, event, action).listings, texts(before.targets@)),
            before.minimum,
        ),
{
    broadcast use vstd::seq_lib::group_to_multiset_ensures;

    let next = recorded(history, event, action);
    let reported = seq![history.root] + reported_directories(history.listings);
    let none = Seq::<String>::empty();
    match (before.phase, event) {
        (SearchPhase::Reading, SearchEvent::DirectoryRead(Ok(entries))) => {
            let added = subdirectories(entries@);
            let pending = before.pending@ + added;
            let moves = wanted_files(entries@, texts(before.targets@));
            assert(next.listings.drop_last() =~= history.listings);
            assert(pending =~= none);
            assert(before.pending@ =~= none);
            assert(added =~= none);
            assert(seq![history.root] + reported_directories(next.listings) =~= reported);
            assert(history.read.to_multiset().add(none.to_multiset()) =~= history.read.to_multiset());
            assert(before.moving@ =~= none);
            assert(names_of(moves) =~= none);
            assert(reported_files(next.listings, texts(before.targets@)) =~= before.found@);
        },
        (SearchPhase::Moving, SearchEvent::FilesMoved(Ok(()))) => {
            assert(before.pending@ =~= none);
            assert(history.read.to_multiset().add(none.to_multiset()) =~= history.read.to_multiset());
        },
        _ => {},
    }
}

/// With `found` files moved and `minimum` required, of which one at least is
/// positive: the search succeeds exactly when `found >= minimum`, is a partial
/// failure exactly when `0 < found < minimum`, and finds nothing exactly when
/// `found` is zero.
pub proof fn lemma_outcome_by_count(
    outcome: InstallationOutcome,
    found: Seq<String>,
    minimum: usize,
)
    requires
        outcome_is(outcome, found, minimum),
        found.len() > 0 || minimum > 0,
    ensures
        outcome is Success <==> found.len() >= minimum,
        outcome is PartialFailure <==> 0 < found.len() < minimum,
        outcome is NotFound <==> found.len() == 0,
{
}

} // verus!
