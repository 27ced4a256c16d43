use vstd::prelude::*;
use crate::address::ShareRoot;
use crate::failure::{ErrorKind, Failure};
use crate::list::{
    is_self_or_parent, lines, list_dir, list_dir_done, list_dir_opened, listing, DirEntry, Listed,
};
use crate::mkdir::{mkdir, mkdir_done, mkdir_p, DirectoryWalk};
use crate::path::{has_parent_ref, rendered, segments, trimmed};
use crate::presence::{path_exists, path_exists_probed, presence_shown, ExistsStep, Presence};
use crate::probe::{kind_shown, mismatch};
use crate::read::{read_file, read_file_done, read_file_opened};
use crate::rename::{
    rename, rename_done, rename_opened, rename_reopened, target_name, RenameInfo, RenameStep,
};
use crate::request::{
    delete_mode, directory_mode, inspect_mode, look_mode, overwrite_mode, rename_mode, HandleTag,
    Kind, OpenReply, OpenRequest,
};
use crate::rm::{already_gone, not_empty, rm, rm_done, rm_probed};
use crate::stat::{stat, stat_done, stat_opened, Stat};
use crate::stats::{
    file_stats, file_stats_basic, file_stats_done, file_stats_opened, file_stats_probed,
    handle_of, stats_of, BasicInfo, FileStats, StandardInfo,
};
use crate::write::{write_file, write_file_done, write_file_opened};

verus! {

/// What a caller can ask of a share. Every path is relative to the
/// share's root.
#[derive(Debug)]
pub enum Command {
    ReadFile { path: String },
    WriteFile { path: String, data: Vec<u8> },
    ListDir { path: String },
    Stat { path: String },
    FileStats { path: String },
    Mkdir { path: String },
    MkdirP { path: String },
    Rm { path: String },
    Rename { from: String, to: String, replace_if_exists: bool },
    Exists { path: String },
}

/// What the session is asked to do next. All but `Open` act on the handle
/// that the last open gave.
#[derive(Debug)]
pub enum Request {
    /// Open an object. The handle that was open before is released.
    Open(OpenRequest),
    /// Read the file to its end.
    ReadToEnd,
    /// Write these bytes, all of them, to the file.
    WriteAll(Vec<u8>),
    /// Enumerate the entries of the directory, all of them.
    Enumerate,
    /// Ask for the times and attributes of the object.
    QueryBasic,
    /// Ask for the sizes and the link count of the object.
    QueryStandard,
    /// Give the object a new name.
    SetName(RenameInfo),
}

/// What the session did on a request.
#[derive(Debug)]
pub enum Answer {
    Handle(HandleTag),
    Bytes(Vec<u8>),
    Written,
    /// One item for each entry, `None` for one that could not be decoded.
    Entries(Vec<Option<DirEntry>>),
    Basic(BasicInfo),
    Standard(StandardInfo),
    Renamed,
}

/// The session's answer to a request, or the text of its error.
pub type Reply = Result<Answer, String>;

/// What an operation gave.
#[derive(Debug)]
pub enum Outcome {
    Done,
    Bytes(Vec<u8>),
    Listing(Vec<Listed>),
    Stat(Stat),
    /// `None` where nothing was found at the path.
    Stats(Option<FileStats>),
    Presence(Presence),
}

/// Where an operation stands while the session works on a request.
#[derive(Debug)]
pub enum Pending {
    ReadOpen,
    ReadData,
    WriteOpen(Vec<u8>),
    WriteData,
    ListOpen,
    ListEntries,
    StatOpen,
    StatData,
    StatsProbe(OpenRequest),
    StatsOpen(Kind),
    StatsBasic(Kind),
    StatsStandard(Kind, BasicInfo),
    Mkdir,
    MkdirP(DirectoryWalk),
    RmProbe(OpenRequest),
    RmOpen,
    RenameOpen(OpenRequest, RenameInfo),
    RenameReopen(RenameInfo),
    RenameApply,
    ExistsProbe,
}

/// How an operation goes on.
#[derive(Debug)]
pub enum Step {
    /// The session is to perform the request, and its reply goes to
    /// `resume` together with the pending state.
    Ask(Pending, Request),
    /// The operation has ended; any open handle is released.
    Finish(Result<Outcome, Failure>),
}

/// The handle that a reply holds, if it holds one.
pub open spec fn handle_in(reply: Reply) -> Option<HandleTag> {
    match reply {
        Ok(Answer::Handle(tag)) => Some(tag),
        _ => None,
    }
}

/// The text of the error that a reply holds; empty if it holds none.
pub open spec fn text_of(reply: Reply) -> Seq<char> {
    match reply {
        Err(text) => text@,
        Ok(_) => Seq::<char>::empty(),
    }
}

/// The kind of object that a reply to a probe shows.
pub open spec fn kind_in(reply: Reply) -> Option<Kind> {
    match handle_in(reply) {
        Some(HandleTag::File) => Some(Kind::File),
        Some(HandleTag::Directory) => Some(Kind::Dir),
        _ => None,
    }
}

/// Whether a step ends the operation with a failure of the given kind and
/// detail.
pub open spec fn fails(step: Step, kind: ErrorKind, detail: Seq<char>) -> bool {
    step matches Step::Finish(Err(f)) && f.is(kind, detail)
}

/// Whether a step ends the operation with the given outcome.
pub open spec fn ends(step: Step, outcome: Outcome) -> bool {
    step == Step::Finish(Ok(outcome))
}

/// Whether a step asks the session for an open of the given path and mode.
pub open spec fn asks_open(
    step: Step,
    path: Seq<char>,
    mode: crate::request::OpenMode,
) -> bool {
    step matches Step::Ask(_, Request::Open(req)) && req.path@ == path && req.mode == mode
}

/// Whether `step` is how an open that must give a handle of the kind
/// `want` goes on: with `next` where it did, else with `NotAFile` or
/// `NotADirectory` for another handle and `OpenError` for none.
pub open spec fn opens_or_fails(reply: Reply, want: HandleTag, step: Step, next: Step) -> bool {
    match handle_in(reply) {
        Some(tag) => if tag == want {
            step == next
        } else {
            fails(step, mismatch(want), Seq::<char>::empty())
        },
        None => fails(step, ErrorKind::OpenError, text_of(reply)),
    }
}

/// Whether `step` is how the operation goes on from `pending` when the
/// session gave `reply`. A reply that does not answer the request
/// counts as a failure of the request, without text.
pub open spec fn follows(pending: Pending, reply: Reply, step: Step) -> bool {
    match pending {
        Pending::ReadOpen => opens_or_fails(
            reply,
            HandleTag::File,
            step,
            Step::Ask(Pending::ReadData, Request::ReadToEnd),
        ),
        Pending::ReadData => match reply {
            Ok(Answer::Bytes(bytes)) => ends(step, Outcome::Bytes(bytes)),
            _ => fails(step, ErrorKind::ReadError, text_of(reply)),
        },
        Pending::WriteOpen(data) => opens_or_fails(
            reply,
            HandleTag::File,
            step,
            Step::Ask(Pending::WriteData, Request::WriteAll(data)),
        ),
        Pending::WriteData => match reply {
            Ok(Answer::Written) => ends(step, Outcome::Done),
            _ => fails(step, ErrorKind::WriteError, text_of(reply)),
        },
        Pending::ListOpen => opens_or_fails(
            reply,
            HandleTag::Directory,
            step,
            Step::Ask(Pending::ListEntries, Request::Enumerate),
        ),
        Pending::ListEntries => match reply {
            Ok(Answer::Entries(raw)) => step matches Step::Finish(Ok(Outcome::Listing(out))) && {
                &&& lines(out@) == listing(raw@)
                &&& forall|i: int| 0 <= i < out.len() ==> !is_self_or_parent(#[trigger] out[i].name@)
            },
            _ => fails(step, ErrorKind::QueryError, text_of(reply)),
        },
        Pending::StatOpen => match handle_in(reply) {
            Some(HandleTag::File) => step == Step::Ask(Pending::StatData, Request::ReadToEnd),
            Some(_) => ends(step, Outcome::Stat(Stat { size: 0, is_directory: true })),
            None => fails(step, ErrorKind::OpenError, text_of(reply)),
        },
        Pending::StatData => match reply {
            Ok(Answer::Bytes(bytes)) => ends(
                step,
                Outcome::Stat(Stat { size: bytes@.len() as u64, is_directory: false }),
            ),
            _ => fails(step, ErrorKind::ReadError, text_of(reply)),
        },
        Pending::StatsProbe(probe) => match kind_in(reply) {
            Some(kind) => {
                &&& asks_open(step, probe.path@, inspect_mode(kind))
                &&& step->Ask_0 == Pending::StatsOpen(kind)
            },
            None => ends(step, Outcome::Stats(None)),
        },
        Pending::StatsOpen(kind) => opens_or_fails(
            reply,
            handle_of(kind),
            step,
            Step::Ask(Pending::StatsBasic(kind), Request::QueryBasic),
        ),
        Pending::StatsBasic(kind) => match reply {
            Ok(Answer::Basic(basic)) => step == Step::Ask(
                Pending::StatsStandard(kind, basic),
                Request::QueryStandard,
            ),
            _ => fails(step, ErrorKind::QueryError, text_of(reply)),
        },
        Pending::StatsStandard(kind, basic) => match reply {
            Ok(Answer::Standard(standard)) => ends(
                step,
                Outcome::Stats(Some(stats_of(kind, basic, standard))),
            ),
            _ => fails(step, ErrorKind::QueryError, text_of(reply)),
        },
        Pending::Mkdir => match handle_in(reply) {
            Some(_) => ends(step, Outcome::Done),
            None => fails(step, ErrorKind::CreateError, text_of(reply)),
        },
        Pending::MkdirP(walk) => match handle_in(reply) {
            Some(_) => if walk.made() + 1 >= walk.segments().len() {
                ends(step, Outcome::Done)
            } else {
                &&& asks_open(
                    step,
                    rendered(walk.root(), walk.segments().take(walk.made() as int + 2)),
                    directory_mode(false),
                )
                &&& step->Ask_0 matches Pending::MkdirP(next)
                &&& next.root() == walk.root()
                &&& next.segments() == walk.segments()
                &&& next.made() == walk.made() + 1
            },
            None => fails(step, ErrorKind::CreateError, text_of(reply)),
        },
        Pending::RmProbe(probe) => match kind_in(reply) {
            Some(kind) => {
                &&& asks_open(step, probe.path@, delete_mode(kind))
                &&& step->Ask_0 is RmOpen
            },
            None => ends(step, Outcome::Done),
        },
        Pending::RmOpen => match handle_in(reply) {
            Some(_) => ends(step, Outcome::Done),
            None => if already_gone(text_of(reply)) {
                ends(step, Outcome::Done)
            } else if not_empty(text_of(reply)) {
                fails(step, ErrorKind::DirectoryNotEmpty, Seq::<char>::empty())
            } else {
                fails(step, ErrorKind::DeleteError, text_of(reply))
            },
        },
        Pending::RenameOpen(first, info) => match handle_in(reply) {
            Some(HandleTag::File) => step == Step::Ask(
                Pending::RenameApply,
                Request::SetName(info),
            ),
            Some(_) => fails(step, ErrorKind::NotAFile, Seq::<char>::empty()),
            None => {
                &&& asks_open(step, first.path@, rename_mode(Kind::Dir))
                &&& step->Ask_0 == Pending::RenameReopen(info)
            },
        },
        Pending::RenameReopen(info) => match handle_in(reply) {
            Some(HandleTag::Directory) => step == Step::Ask(
                Pending::RenameApply,
                Request::SetName(info),
            ),
            Some(_) => fails(step, ErrorKind::NotADirectory, Seq::<char>::empty()),
            None => fails(step, ErrorKind::RenameOpenError, text_of(reply)),
        },
        Pending::RenameApply => match reply {
            Ok(Answer::Renamed) => ends(step, Outcome::Done),
            _ => fails(step, ErrorKind::RenameError, text_of(reply)),
        },
        Pending::ExistsProbe => ends(
            step,
            Outcome::Presence(
                match kind_in(reply) {
                    Some(Kind::File) => Presence::File,
                    Some(Kind::Dir) => Presence::Directory,
                    None => Presence::NotFound,
                },
            ),
        ),
    }
}

/// Whether a step opens the path that `rel` resolves to under `root` in
/// the given mode, or ends with `BadPath` where `rel` holds a `..`
/// segment. With `named`, a path that names nothing below the root is a
/// `BadPath` too.
pub open spec fn starts_with_open(
    step: Step,
    root: Seq<char>,
    rel: Seq<char>,
    mode: crate::request::OpenMode,
    named: bool,
) -> bool {
    if has_parent_ref(rel) || (named && segments(rel).len() == 0) {
        fails(step, ErrorKind::BadPath, Seq::<char>::empty())
    } else {
        asks_open(step, rendered(root, segments(rel)), mode)
    }
}

/// Whether `step` is the first step of `command` on the share with the
/// given root.
pub open spec fn starts(root: Seq<char>, command: Command, step: Step) -> bool {
    match command {
        Command::ReadFile { path } => {
            &&& starts_with_open(step, root, path@, look_mode(), false)
            &&& step is Ask ==> step->Ask_0 is ReadOpen
        },
        Command::WriteFile { path, data } => {
            &&& starts_with_open(step, root, path@, overwrite_mode(), false)
            &&& step is Ask ==> step->Ask_0 == Pending::WriteOpen(data)
        },
        Command::ListDir { path } => {
            &&& starts_with_open(step, root, path@, look_mode(), false)
            &&& step is Ask ==> step->Ask_0 is ListOpen
        },
        Command::Stat { path } => {
            &&& starts_with_open(step, root, path@, look_mode(), false)
            &&& step is Ask ==> step->Ask_0 is StatOpen
        },
        Command::FileStats { path } => {
            &&& starts_with_open(step, root, path@, look_mode(), false)
            &&& step matches Step::Ask(pending, Request::Open(req)) ==> pending
                matches Pending::StatsProbe(probe) && probe.path@ == req.path@
        },
        Command::Mkdir { path } => {
            &&& starts_with_open(step, root, path@, directory_mode(true), true)
            &&& step is Ask ==> step->Ask_0 is Mkdir
        },
        Command::MkdirP { path } => if has_parent_ref(path@) {
            fails(step, ErrorKind::BadPath, Seq::<char>::empty())
        } else if segments(path@).len() == 0 {
            ends(step, Outcome::Done)
        } else {
            &&& asks_open(
                step,
                rendered(root, segments(path@).take(1)),
                directory_mode(false),
            )
            &&& step->Ask_0 matches Pending::MkdirP(walk)
            &&& walk.root() == root
            &&& walk.segments() == segments(path@)
            &&& walk.made() == 0
        },
        Command::Rm { path } => {
            &&& starts_with_open(step, root, path@, look_mode(), true)
            &&& step matches Step::Ask(pending, Request::Open(req)) ==> pending
                matches Pending::RmProbe(probe) && probe.path@ == req.path@
        },
        Command::Rename { from, to, replace_if_exists } => if has_parent_ref(from@) || segments(
            from@,
        ).len() == 0 || trimmed(to@).len() == 0 {
            fails(step, ErrorKind::BadPath, Seq::<char>::empty())
        } else {
            &&& asks_open(step, rendered(root, segments(from@)), rename_mode(Kind::File))
            &&& step->Ask_0 matches Pending::RenameOpen(first, info)
            &&& first.path@ == rendered(root, segments(from@))
            &&& info.replace_if_exists == replace_if_exists
            &&& info.root_directory == 0
            &&& info.file_name@ == target_name(to@)
        },
        Command::Exists { path } => if has_parent_ref(path@) {
            fails(step, ErrorKind::BadPath, Seq::<char>::empty())
        } else if segments(path@).len() == 0 {
            ends(step, Outcome::Presence(Presence::Directory))
        } else {
            &&& asks_open(step, rendered(root, segments(path@)), look_mode())
            &&& step->Ask_0 is ExistsProbe
        },
    }
}

/// How many requests an operation may still make, the pending one
/// included.
pub open spec fn requests_left(pending: Pending) -> nat {
    match pending {
        Pending::ReadOpen => 2,
        Pending::ReadData => 1,
        Pending::WriteOpen(_) => 2,
        Pending::WriteData => 1,
        Pending::ListOpen => 2,
        Pending::ListEntries => 1,
        Pending::StatOpen => 2,
        Pending::StatData => 1,
        Pending::StatsProbe(_) => 4,
        Pending::StatsOpen(_) => 3,
        Pending::StatsBasic(_) => 2,
        Pending::StatsStandard(_, _) => 1,
        Pending::Mkdir => 1,
        Pending::MkdirP(walk) => if walk.made() < walk.segments().len() {
            (walk.segments().len() - walk.made()) as nat
        } else {
            1
        },
        Pending::RmProbe(_) => 2,
        Pending::RmOpen => 1,
        Pending::RenameOpen(_, _) => 3,
        Pending::RenameReopen(_) => 2,
        Pending::RenameApply => 1,
        Pending::ExistsProbe => 1,
    }
}

/// Every operation ends: each reply brings it to its end or leaves it
/// fewer requests to make. No request is made a second time.
pub proof fn law_operations_end(pending: Pending, reply: Reply, step: Step)
    requires
        follows(pending, reply, step),
        step is Ask,
    ensures
        requests_left(step->Ask_0) < requests_left(pending),
{
}

/// A request that acts on a handle is only made while a handle is open:
/// right after the open that gave it, or after a query on it that the
/// session answered.
pub proof fn law_handle_is_open(pending: Pending, reply: Reply, step: Step)
    requires
        follows(pending, reply, step),
        step matches Step::Ask(_, request) && !(request is Open),
    ensures
        reply matches Ok(answer) && (answer is Handle || answer is Basic),
{
}

/// The answer to an open that a reply holds. A reply that holds another
/// answer counts as a failed open, without text.
pub fn opened(reply: Reply) -> (r: OpenReply)
    ensures
        match r {
            Ok(tag) => handle_in(reply) == Some(tag),
            Err(text) => handle_in(reply) is None && text@ == text_of(reply),
        },
{
    match reply {
        Ok(Answer::Handle(tag)) => Ok(tag),
        Ok(_) => Err(String::new()),
        Err(text) => Err(text),
    }
}

/// The bytes that a reply holds, or the text of the failure.
pub fn bytes_in(reply: Reply) -> (r: Result<Vec<u8>, String>)
    ensures
        match r {
            Ok(bytes) => reply == Ok::<Answer, String>(Answer::Bytes(bytes)),
            Err(text) => !(reply matches Ok(Answer::Bytes(_))) && text@ == text_of(reply),
        },
{
    match reply {
        Ok(Answer::Bytes(bytes)) => Ok(bytes),
        Ok(_) => Err(String::new()),
        Err(text) => Err(text),
    }
}

/// A copy of an open.
fn same_open(req: &OpenRequest) -> (out: OpenRequest)
    ensures
        out.path@ == req.path@,
        out.mode == req.mode,
{
    OpenRequest { path: req.path.clone(), mode: req.mode }
}

/// A step that asks for an open and keeps the open in the pending state.
fn ask_open(pending: Pending, req: OpenRequest) -> (step: Step)
    ensures
        step == Step::Ask(pending, Request::Open(req)),
{
    Step::Ask(pending, Request::Open(req))
}

/// The step that ends an operation with a failure.
fn fail(f: Failure) -> (step: Step)
    ensures
        step == Step::Finish(Err::<Outcome, Failure>(f)),
{
    Step::Finish(Err(f))
}

/// The step that ends an operation with an outcome.
fn end(outcome: Outcome) -> (step: Step)
    ensures
        ends(step, outcome),
{
    Step::Finish(Ok(outcome))
}

fn resume_read(pending: Pending, reply: Reply) -> (step: Step)
    requires
        pending is ReadOpen || pending is ReadData,
    ensures
        follows(pending, reply, step),
{
    match pending {
        Pending::ReadOpen => match read_file_opened(opened(reply)) {
            Ok(()) => Step::Ask(Pending::ReadData, Request::ReadToEnd),
            Err(f) => fail(f),
        },
        _ => match read_file_done(bytes_in(reply)) {
            Ok(bytes) => end(Outcome::Bytes(bytes)),
            Err(f) => fail(f),
        },
    }
}

fn resume_write(pending: Pending, reply: Reply) -> (step: Step)
    requires
        pending is WriteOpen || pending is WriteData,
    ensures
        follows(pending, reply, step),
{
    match pending {
        Pending::WriteOpen(data) => match write_file_opened(opened(reply)) {
            Ok(()) => Step::Ask(Pending::WriteData, Request::WriteAll(data)),
            Err(f) => fail(f),
        },
        _ => {
            let written = match reply {
                Ok(Answer::Written) => Ok(()),
                Ok(_) => Err(String::new()),
                Err(text) => Err(text),
            };
            match write_file_done(written) {
                Ok(()) => end(Outcome::Done),
                Err(f) => fail(f),
            }
        },
    }
}

fn resume_list(pending: Pending, reply: Reply) -> (step: Step)
    requires
        pending is ListOpen || pending is ListEntries,
    ensures
        follows(pending, reply, step),
{
    match pending {
        Pending::ListOpen => match list_dir_opened(opened(reply)) {
            Ok(()) => Step::Ask(Pending::ListEntries, Request::Enumerate),
            Err(f) => fail(f),
        },
        _ => {
            let entries = match reply {
                Ok(Answer::Entries(raw)) => Ok(raw),
                Ok(_) => Err(String::new()),
                Err(text) => Err(text),
            };
            match list_dir_done(entries) {
                Ok(out) => Step::Finish(Ok(Outcome::Listing(out))),
                Err(f) => fail(f),
            }
        },
    }
}

fn resume_stat(pending: Pending, reply: Reply) -> (step: Step)
    requires
        pending is StatOpen || pending is StatData,
    ensures
        follows(pending, reply, step),
{
    match pending {
        Pending::StatOpen => match stat_opened(opened(reply)) {
            Ok(None) => Step::Ask(Pending::StatData, Request::ReadToEnd),
            Ok(Some(found)) => end(Outcome::Stat(found)),
            Err(f) => fail(f),
        },
        _ => match stat_done(bytes_in(reply)) {
            Ok(found) => end(Outcome::Stat(found)),
            Err(f) => fail(f),
        },
    }
}

fn resume_stats(pending: Pending, reply: Reply) -> (step: Step)
    requires
        pending is StatsProbe || pending is StatsOpen || pending is StatsBasic
            || pending is StatsStandard,
    ensures
        follows(pending, reply, step),
{
    match pending {
        Pending::StatsProbe(probe) => {
            let shown = opened(reply);
            assert(kind_shown(shown) == kind_in(reply));
            match file_stats_probed(probe, &shown) {
                Some((kind, req)) => ask_open(Pending::StatsOpen(kind), req),
                None => end(Outcome::Stats(None)),
            }
        },
        Pending::StatsOpen(kind) => match file_stats_opened(kind, opened(reply)) {
            Ok(()) => Step::Ask(Pending::StatsBasic(kind), Request::QueryBasic),
            Err(f) => fail(f),
        },
        Pending::StatsBasic(kind) => {
            let basic = match reply {
                Ok(Answer::Basic(basic)) => Ok(basic),
                Ok(_) => Err(String::new()),
                Err(text) => Err(text),
            };
            match file_stats_basic(basic) {
                Ok(basic) => Step::Ask(Pending::StatsStandard(kind, basic), Request::QueryStandard),
                Err(f) => fail(f),
            }
        },
        Pending::StatsStandard(kind, basic) => {
            let standard = match reply {
                Ok(Answer::Standard(standard)) => Ok(standard),
                Ok(_) => Err(String::new()),
                Err(text) => Err(text),
            };
            match file_stats_done(kind, basic, standard) {
                Ok(stats) => end(Outcome::Stats(Some(stats))),
                Err(f) => fail(f),
            }
        },
        _ => fail(Failure::bare(ErrorKind::QueryError)),
    }
}

fn resume_mkdir(pending: Pending, reply: Reply) -> (step: Step)
    requires
        pending is Mkdir || pending is MkdirP,
    ensures
        follows(pending, reply, step),
{
    match pending {
        Pending::MkdirP(walk) => match walk.advance(opened(reply)) {
            Ok(next) => match next.pending() {
                Some(req) => ask_open(Pending::MkdirP(next), req),
                None => end(Outcome::Done),
            },
            Err(f) => fail(f),
        },
        _ => match mkdir_done(opened(reply)) {
            Ok(()) => end(Outcome::Done),
            Err(f) => fail(f),
        },
    }
}

fn resume_rm(pending: Pending, reply: Reply) -> (step: Step)
    requires
        pending is RmProbe || pending is RmOpen,
    ensures
        follows(pending, reply, step),
{
    match pending {
        Pending::RmProbe(probe) => {
            let shown = opened(reply);
            assert(kind_shown(shown) == kind_in(reply));
            match rm_probed(probe, &shown) {
                Some(req) => ask_open(Pending::RmOpen, req),
                None => end(Outcome::Done),
            }
        },
        _ => match rm_done(opened(reply)) {
            Ok(()) => end(Outcome::Done),
            Err(f) => fail(f),
        },
    }
}

fn resume_rename(pending: Pending, reply: Reply) -> (step: Step)
    requires
        pending is RenameOpen || pending is RenameReopen || pending is RenameApply,
    ensures
        follows(pending, reply, step),
{
    match pending {
        Pending::RenameOpen(first, info) => match rename_opened(first, opened(reply)) {
            RenameStep::Apply => Step::Ask(Pending::RenameApply, Request::SetName(info)),
            RenameStep::Retry(req) => ask_open(Pending::RenameReopen(info), req),
            RenameStep::Fail(f) => fail(f),
        },
        Pending::RenameReopen(info) => match rename_reopened(opened(reply)) {
            Ok(()) => Step::Ask(Pending::RenameApply, Request::SetName(info)),
            Err(f) => fail(f),
        },
        _ => {
            let renamed = match reply {
                Ok(Answer::Renamed) => Ok(()),
                Ok(_) => Err(String::new()),
                Err(text) => Err(text),
            };
            match rename_done(renamed) {
                Ok(()) => end(Outcome::Done),
                Err(f) => fail(f),
            }
        },
    }
}

/// Goes on with an operation: takes the session's reply to the request
/// that was asked last, and says what is to be done next.
pub fn resume(pending: Pending, reply: Reply) -> (step: Step)
    ensures
        follows(pending, reply, step),
{
    match pending {
        Pending::ReadOpen | Pending::ReadData => resume_read(pending, reply),
        Pending::WriteOpen(_) | Pending::WriteData => resume_write(pending, reply),
        Pending::ListOpen | Pending::ListEntries => resume_list(pending, reply),
        Pending::StatOpen | Pending::StatData => resume_stat(pending, reply),
        Pending::StatsProbe(_) | Pending::StatsOpen(_) | Pending::StatsBasic(_) | Pending::StatsStandard(
            _,
            _,
        ) => resume_stats(pending, reply),
        Pending::Mkdir | Pending::MkdirP(_) => resume_mkdir(pending, reply),
        Pending::RmProbe(_) | Pending::RmOpen => resume_rm(pending, reply),
        Pending::RenameOpen(_, _) | Pending::RenameReopen(_) | Pending::RenameApply => resume_rename(
            pending,
            reply,
        ),
        Pending::ExistsProbe => {
            let shown = opened(reply);
            assert(presence_shown(shown) == match kind_in(reply) {
                Some(Kind::File) => Presence::File,
                Some(Kind::Dir) => Presence::Directory,
                None => Presence::NotFound,
            });
            end(Outcome::Presence(path_exists_probed(&shown)))
        },
    }
}

/// The first step of an operation that opens one object and keeps the
/// open for the step after it.
fn begin_probe(opening: Result<OpenRequest, Failure>, stats: bool) -> (step: Step)
    ensures
        match opening {
            Ok(req) => step matches Step::Ask(pending, Request::Open(asked)) && asked == req && {
                if stats {
                    pending matches Pending::StatsProbe(probe) && probe.path@ == req.path@
                } else {
                    pending matches Pending::RmProbe(probe) && probe.path@ == req.path@
                }
            },
            Err(f) => step == Step::Finish(Err::<Outcome, Failure>(f)),
        },
{
    match opening {
        Ok(req) => {
            let probe = same_open(&req);
            if stats {
                Step::Ask(Pending::StatsProbe(probe), Request::Open(req))
            } else {
                Step::Ask(Pending::RmProbe(probe), Request::Open(req))
            }
        },
        Err(f) => fail(f),
    }
}

/// The first step of an operation that opens one object.
fn begin_open(opening: Result<OpenRequest, Failure>, pending: Pending) -> (step: Step)
    ensures
        match opening {
            Ok(req) => step == Step::Ask(pending, Request::Open(req)),
            Err(f) => step == Step::Finish(Err::<Outcome, Failure>(f)),
        },
{
    match opening {
        Ok(req) => Step::Ask(pending, Request::Open(req)),
        Err(f) => fail(f),
    }
}

/// Starts an operation on the share with the given root: says what the
/// session is to be asked first, or how the operation ends without
/// asking.
pub fn begin(root: &ShareRoot, command: Command) -> (step: Step)
    ensures
        starts(root.text(), command, step),
{
    match command {
        Command::ReadFile { path } => begin_open(read_file(root, path.as_str()), Pending::ReadOpen),
        Command::WriteFile { path, data } => begin_open(
            write_file(root, path.as_str()),
            Pending::WriteOpen(data),
        ),
        Command::ListDir { path } => begin_open(list_dir(root, path.as_str()), Pending::ListOpen),
        Command::Stat { path } => begin_open(stat(root, path.as_str()), Pending::StatOpen),
        Command::FileStats { path } => begin_probe(file_stats(root, path.as_str()), true),
        Command::Mkdir { path } => begin_open(mkdir(root, path.as_str()), Pending::Mkdir),
        Command::MkdirP { path } => match mkdir_p(root, path.as_str()) {
            Ok(walk) => match walk.pending() {
                Some(req) => ask_open(Pending::MkdirP(walk), req),
                None => end(Outcome::Done),
            },
            Err(f) => fail(f),
        },
        Command::Rm { path } => begin_probe(rm(root, path.as_str()), false),
        Command::Rename { from, to, replace_if_exists } => match rename(
            root,
            from.as_str(),
            to.as_str(),
            replace_if_exists,
        ) {
            Ok(plan) => {
                let first = same_open(&plan.open);
                ask_open(Pending::RenameOpen(first, plan.info), plan.open)
            },
            Err(f) => fail(f),
        },
        Command::Exists { path } => match path_exists(root, path.as_str()) {
            Ok(ExistsStep::Known(presence)) => end(Outcome::Presence(presence)),
            Ok(ExistsStep::Probe(req)) => ask_open(Pending::ExistsProbe, req),
            Err(f) => fail(f),
        },
    }
}

} // verus!
