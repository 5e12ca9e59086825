//! The registry of supervised worker processes.
//!
//! The registry decides; the caller launches, signals and waits. A process is
//! known here by the token under which the caller keeps its handle.

use vstd::prelude::*;
use vstd::string::StringExecFns;
use crate::decimal::{decimal_digits, push_decimal};
use crate::paths::{join, path_join};

verus! {

pub const LOCAL_SERVER_IP_ADDR: &'static str = "127.0.0.1";

pub const LOCAL_SERVER_BIN_NAME: &'static str = "mpv-web-api";

pub const ADDR_ARG: &'static str = "--addr";

pub const DIR_ARG: &'static str = "--dir";

pub const WATCH_DIR_ARG: &'static str = "--watch-dir";

/// What a worker is started with.
#[derive(Debug)]
pub struct ServerArguments<'a> {
    pub port: u16,
    pub dir: &'a [String],
    pub watch_dir: bool,
}

/// One supervised worker.
#[derive(Debug)]
pub struct ApiServerInstance {
    pub local: bool,
    pub address: String,
    /// The token of the process handle that the caller holds.
    pub handle: u64,
}

/// A worker as the contracts speak of it.
pub struct InstanceView {
    pub local: bool,
    pub address: Seq<char>,
    pub handle: u64,
}

impl View for ApiServerInstance {
    type V = InstanceView;

    open spec fn view(&self) -> InstanceView {
        InstanceView { local: self.local, address: self.address@, handle: self.handle }
    }
}

/// A worker as a listing shows it.
#[derive(Debug)]
pub struct InstanceInfo {
    pub name: String,
    pub local: bool,
    pub address: String,
}

struct Entry {
    name: String,
    instance: ApiServerInstance,
}

/// The workers by name, the directory of their logs, and the tokens of the
/// log-writer tasks started so far.
///
/// The entries stand in a vector in which no name occurs twice, not in a
/// hash map: a listing hands out every entry and a stop takes one out
/// whole, and the contracts speak of both.
pub struct ApiServersService {
    instances: Vec<Entry>,
    logs_dir: String,
    logs_join_handles: Vec<u64>,
}

/// Why a worker could not be started or stopped.
#[derive(Debug)]
pub enum ApiServersErr {
    /// The address, then the reason.
    SpawnFailed(String, String),
    /// The path of the log file, then the reason.
    LogOpenFailed(String, String),
    NotFound(String),
    AlreadyFinished(String),
    SignalFailed(String),
    WaitFailed(String),
    CompressionFailed(String),
    StdoutRemovalFailed(String),
    StderrRemovalFailed(String),
}

/// How the caller's attempt to start a worker ended.
#[derive(Debug)]
pub enum SpawnOutcome {
    /// The process runs under the token `handle`; the task that copies its
    /// output to the log files has the token `writer`.
    Started { handle: u64, writer: u64 },
    /// The process could not be launched, for the reason given.
    LaunchFailed(String),
    /// A log file could not be opened: its path, then the reason.
    LogOpenFailed(String, String),
}

/// What the caller needs to start a worker.
#[derive(Debug)]
pub struct SpawnPlan {
    pub program: String,
    pub arguments: Vec<String>,
    pub address: String,
    pub stdout_file: String,
    pub stderr_file: String,
}

/// The wait for the log writers at shutdown: the tasks to wait for, and
/// for how many seconds at most.
#[derive(Debug)]
pub struct WritersWait {
    pub writers: Vec<u64>,
    pub timeout_seconds: u32,
}

/// The files that archiving a worker's logs works on.
#[derive(Debug)]
pub struct ArchivePlan {
    pub stdout_path: String,
    pub stderr_path: String,
    pub archive_path: String,
}

/// A step of stopping a worker that was taken out of the registry.
#[derive(Clone, Copy, Debug, PartialEq, Eq, Structural)]
pub enum StopStep {
    /// Send the termination signal to the process.
    Signal,
    /// Wait for the exit of the process.
    Wait,
    /// Pack the two log files into the archive.
    Compress,
    RemoveStdout,
    RemoveStderr,
}

/// What follows a step of stopping.
#[derive(Debug)]
pub enum StopProgress {
    Continue(StopStep),
    Finished(Result<(), ApiServersErr>),
}

/// The address of a local worker that listens on `port`.
pub open spec fn address_text(port: u16) -> Seq<char> {
    LOCAL_SERVER_IP_ADDR@ + seq![':'] + decimal_digits(port as nat)
}

/// One `--dir` flag for each directory, in order.
pub open spec fn dir_arguments(dirs: Seq<String>) -> Seq<Seq<char>>
    decreases dirs.len(),
{
    if dirs.len() == 0 {
        seq![]
    } else {
        dir_arguments(dirs.drop_last()).push(DIR_ARG@).push(dirs.last()@)
    }
}

/// The worker's command line: the address, the directories, and the watch
/// flag when it is asked for.
pub open spec fn command_arguments(port: u16, dirs: Seq<String>, watch_dir: bool) -> Seq<
    Seq<char>,
> {
    let head = seq![ADDR_ARG@, address_text(port)] + dir_arguments(dirs);
    if watch_dir {
        head.push(WATCH_DIR_ARG@)
    } else {
        head
    }
}

/// The strings as texts.
pub open spec fn texts(strings: Seq<String>) -> Seq<Seq<char>> {
    strings.map_values(|s: String| s@)
}

/// The name of the file that takes the standard output of the worker `name`.
pub open spec fn stdout_file_name(name: Seq<char>) -> Seq<char> {
    name + "_stdout"@
}

/// The name of the file that takes the standard error of the worker `name`.
pub open spec fn stderr_file_name(name: Seq<char>) -> Seq<char> {
    name + "_stderr"@
}

/// The name of the archive that takes both logs of the worker `name`.
pub open spec fn archive_file_name(name: Seq<char>) -> Seq<char> {
    name + "_logs_archive.tar.gz"@
}

/// The failure in words.
pub open spec fn servers_err_text(err: ApiServersErr) -> Seq<char> {
    match err {
        ApiServersErr::SpawnFailed(address, reason) =>
            "could not spawn an api instance on address "@ + address@ + ": "@ + reason@,
        ApiServersErr::LogOpenFailed(path, reason) => "could not open file for stdout writing "@
            + path@ + ": "@ + reason@,
        ApiServersErr::NotFound(name) => "could not find api server instance with name "@
            + name@,
        ApiServersErr::AlreadyFinished(name) => "instance with name "@ + name@
            + " has already finished"@,
        ApiServersErr::SignalFailed(reason) => "could not send the termination signal: "@
            + reason@,
        ApiServersErr::WaitFailed(reason) => "could not await on instance closure: "@ + reason@,
        ApiServersErr::CompressionFailed(reason) => "could not compress archive: "@ + reason@,
        ApiServersErr::StdoutRemovalFailed(reason) => "could not remove stdout output: "@
            + reason@,
        ApiServersErr::StderrRemovalFailed(reason) => "could not remove stderr output: "@
            + reason@,
    }
}

/// The step that follows `step` after `outcome`, or `None` where stopping
/// ends there.
pub open spec fn next_stop_step(step: StopStep, outcome: Result<(), String>) -> Option<StopStep> {
    if outcome is Err {
        None
    } else {
        match step {
            StopStep::Signal => Some(StopStep::Wait),
            StopStep::Wait => Some(StopStep::Compress),
            StopStep::Compress => Some(StopStep::RemoveStdout),
            StopStep::RemoveStdout => Some(StopStep::RemoveStderr),
            StopStep::RemoveStderr => None,
        }
    }
}

/// The error with which a failure at `step` is reported.
pub open spec fn stop_failure(step: StopStep, reason: String) -> ApiServersErr {
    match step {
        StopStep::Signal => ApiServersErr::SignalFailed(reason),
        StopStep::Wait => ApiServersErr::WaitFailed(reason),
        StopStep::Compress => ApiServersErr::CompressionFailed(reason),
        StopStep::RemoveStdout => ApiServersErr::StdoutRemovalFailed(reason),
        StopStep::RemoveStderr => ApiServersErr::StderrRemovalFailed(reason),
    }
}

spec fn has_name(entries: Seq<Entry>, name: Seq<char>, i: int) -> bool {
    0 <= i < entries.len() && entries[i].name@ == name
}

spec fn names_distinct(entries: Seq<Entry>) -> bool {
    forall|i: int, j: int|
        0 <= i < entries.len() && 0 <= j < entries.len() && i != j ==> entries[i].name@
            != entries[j].name@
}

spec fn entries_map(entries: Seq<Entry>) -> Map<Seq<char>, InstanceView> {
    Map::new(
        |name: Seq<char>| exists|i: int| has_name(entries, name, i),
        |name: Seq<char>| entries[choose|i: int| has_name(entries, name, i)].instance@,
    )
}

proof fn lemma_entry_found(entries: Seq<Entry>, i: int)
    requires
        names_distinct(entries),
        0 <= i < entries.len(),
    ensures
        entries_map(entries).dom().contains(entries[i].name@),
        entries_map(entries)[entries[i].name@] == entries[i].instance@,
{
    let name = entries[i].name@;
    assert(has_name(entries, name, i));
    let j = choose|j: int| has_name(entries, name, j);
    assert(j == i);
}

proof fn lemma_entry_pushed(entries: Seq<Entry>, entry: Entry)
    requires
        names_distinct(entries),
        forall|i: int| 0 <= i < entries.len() ==> entries[i].name@ != entry.name@,
    ensures
        names_distinct(entries.push(entry)),
        entries_map(entries.push(entry)) == entries_map(entries).insert(
            entry.name@,
            entry.instance@,
        ),
{
    let after = entries.push(entry);
    assert(names_distinct(after));
    assert forall|name: Seq<char>|
        #![auto]
        entries_map(after).dom().contains(name) <==> entries_map(entries).insert(
            entry.name@,
            entry.instance@,
        ).dom().contains(name) by {
        if entries_map(after).dom().contains(name) {
            let i = choose|i: int| has_name(after, name, i);
            if i < entries.len() {
                assert(has_name(entries, name, i));
            }
        }
        if entries_map(entries).dom().contains(name) {
            let i = choose|i: int| has_name(entries, name, i);
            assert(has_name(after, name, i));
        }
        if name == entry.name@ {
            assert(has_name(after, name, entries.len() as int));
        }
    }
    assert forall|name: Seq<char>| #![auto] entries_map(after).dom().contains(name) implies entries_map(
        after,
    )[name] == entries_map(entries).insert(entry.name@, entry.instance@)[name] by {
        let i = choose|i: int| has_name(after, name, i);
        lemma_entry_found(after, i);
        if i < entries.len() {
            lemma_entry_found(entries, i);
        }
    }
    assert(entries_map(after) =~= entries_map(entries).insert(entry.name@, entry.instance@));
}

proof fn lemma_entry_removed(entries: Seq<Entry>, k: int)
    requires
        names_distinct(entries),
        0 <= k < entries.len(),
    ensures
        names_distinct(entries.remove(k)),
        entries_map(entries.remove(k)) == entries_map(entries).remove(entries[k].name@),
        forall|i: int|
            0 <= i < entries.remove(k).len() ==> entries.remove(k)[i].name@ != entries[k].name@,
{
    let after = entries.remove(k);
    let gone = entries[k].name@;
    assert forall|i: int| 0 <= i < after.len() implies after[i] == entries[if i < k {
        i
    } else {
        i + 1
    }] by {}
    assert(names_distinct(after));
    assert forall|name: Seq<char>|
        #![auto]
        entries_map(after).dom().contains(name) <==> entries_map(entries).remove(
            gone,
        ).dom().contains(name) by {
        if entries_map(after).dom().contains(name) {
            let i = choose|i: int| has_name(after, name, i);
            let j = if i < k {
                i
            } else {
                i + 1
            };
            assert(has_name(entries, name, j));
        }
        if entries_map(entries).dom().contains(name) && name != gone {
            let j = choose|j: int| has_name(entries, name, j);
            let i = if j < k {
                j
            } else {
                j - 1
            };
            assert(has_name(after, name, i));
        }
    }
    assert forall|name: Seq<char>| #![auto] entries_map(after).dom().contains(name) implies entries_map(
        after,
    )[name] == entries_map(entries).remove(gone)[name] by {
        let i = choose|i: int| has_name(after, name, i);
        let j = if i < k {
            i
        } else {
            i + 1
        };
        lemma_entry_found(after, i);
        lemma_entry_found(entries, j);
    }
    assert(entries_map(after) =~= entries_map(entries).remove(gone));
}

impl ApiServersErr {
    /// The failure in words.
    pub fn message(&self) -> (out: String)
        ensures
            out@ == servers_err_text(*self),
    {
        match self {
            ApiServersErr::SpawnFailed(address, reason) => {
                let mut out = String::from_str("could not spawn an api instance on address ");
                out.append(address.as_str());
                out.append(": ");
                out.append(reason.as_str());
                out
            },
            ApiServersErr::LogOpenFailed(path, reason) => {
                let mut out = String::from_str("could not open file for stdout writing ");
                out.append(path.as_str());
                out.append(": ");
                out.append(reason.as_str());
                out
            },
            ApiServersErr::NotFound(name) => String::from_str(
                "could not find api server instance with name ",
            ).concat(name.as_str()),
            ApiServersErr::AlreadyFinished(name) => {
                let mut out = String::from_str("instance with name ");
                out.append(name.as_str());
                out.append(" has already finished");
                out
            },
            ApiServersErr::SignalFailed(reason) => String::from_str(
                "could not send the termination signal: ",
            ).concat(reason.as_str()),
            ApiServersErr::WaitFailed(reason) => String::from_str(
                "could not await on instance closure: ",
            ).concat(reason.as_str()),
            ApiServersErr::CompressionFailed(reason) => String::from_str(
                "could not compress archive: ",
            ).concat(reason.as_str()),
            ApiServersErr::StdoutRemovalFailed(reason) => String::from_str(
                "could not remove stdout output: ",
            ).concat(reason.as_str()),
            ApiServersErr::StderrRemovalFailed(reason) => String::from_str(
                "could not remove stderr output: ",
            ).concat(reason.as_str()),
        }
    }
}

/// The address on which a local worker with this port listens.
pub fn local_address(port: u16) -> (out: String)
    ensures
        out@ == address_text(port),
{
    let mut out = String::from_str(LOCAL_SERVER_IP_ADDR);
    out.append(":");
    push_decimal(&mut out, port as usize);
    proof {
        reveal_strlit(":");
        assert(":"@ =~= seq![':']);
        assert(out@ =~= address_text(port));
    }
    out
}

/// The arguments with which the worker is launched.
pub fn command_line(server_args: &ServerArguments) -> (out: Vec<String>)
    ensures
        texts(out@) == command_arguments(server_args.port, server_args.dir@, server_args.watch_dir),
{
    let ghost dirs = server_args.dir@;
    let mut out: Vec<String> = Vec::new();
    out.push(String::from_str(ADDR_ARG));
    out.push(local_address(server_args.port));
    assert(texts(out@) =~= seq![ADDR_ARG@, address_text(server_args.port)]);
    assert(dir_arguments(dirs.take(0)) =~= seq![]);
    let mut i: usize = 0;
    while i < server_args.dir.len()
        invariant
            dirs == server_args.dir@,
            i <= dirs.len(),
            texts(out@) == seq![ADDR_ARG@, address_text(server_args.port)] + dir_arguments(
                dirs.take(i as int),
            ),
        decreases dirs.len() - i,
    {
        let ghost before = out@;
        out.push(String::from_str(DIR_ARG));
        out.push(server_args.dir[i].clone());
        proof {
            assert(dirs.take(i + 1).drop_last() =~= dirs.take(i as int));
            assert(dirs.take(i + 1).last() == dirs[i as int]);
            assert(texts(out@) =~= texts(before).push(DIR_ARG@).push(dirs[i as int]@));
            assert(texts(out@) =~= seq![ADDR_ARG@, address_text(server_args.port)] + dir_arguments(
                dirs.take(i + 1),
            ));
        }
        i += 1;
    }
    assert(dirs.take(dirs.len() as int) =~= dirs);
    if server_args.watch_dir {
        let ghost before = out@;
        out.push(String::from_str(WATCH_DIR_ARG));
        assert(texts(out@) =~= texts(before).push(WATCH_DIR_ARG@));
    }
    out
}

/// Decides what follows a step of stopping a worker, of which sending the
/// signal is the first. Each failure ends the stop and is reported under the
/// step at which it happened: a signal that could not be sent too.
pub fn advance_stop(step: StopStep, outcome: Result<(), String>) -> (progress: StopProgress)
    ensures
        match next_stop_step(step, outcome) {
            Some(next) => progress == StopProgress::Continue(next),
            None => progress == StopProgress::Finished(
                match outcome {
                    Ok(_) => Ok(()),
                    Err(reason) => Err(stop_failure(step, reason)),
                },
            ),
        },
{
    match outcome {
        Err(reason) => StopProgress::Finished(
            Err(
                match step {
                    StopStep::Signal => ApiServersErr::SignalFailed(reason),
                    StopStep::Wait => ApiServersErr::WaitFailed(reason),
                    StopStep::Compress => ApiServersErr::CompressionFailed(reason),
                    StopStep::RemoveStdout => ApiServersErr::StdoutRemovalFailed(reason),
                    StopStep::RemoveStderr => ApiServersErr::StderrRemovalFailed(reason),
                },
            ),
        ),
        Ok(_) => match step {
            StopStep::Signal => StopProgress::Continue(StopStep::Wait),
            StopStep::Wait => StopProgress::Continue(StopStep::Compress),
            StopStep::Compress => StopProgress::Continue(StopStep::RemoveStdout),
            StopStep::RemoveStdout => StopProgress::Continue(StopStep::RemoveStderr),
            StopStep::RemoveStderr => StopProgress::Finished(Ok(())),
        },
    }
}

/// Where the entry named `name` stands among `entries`, if there is one.
fn position(entries: &Vec<Entry>, name: &String) -> (found: Option<usize>)
    ensures
        match found {
            Some(i) => has_name(entries@, name@, i as int),
            None => forall|i: int| !has_name(entries@, name@, i),
        },
{
    let mut i: usize = 0;
    while i < entries.len()
        invariant
            i <= entries@.len(),
            forall|j: int| 0 <= j < i ==> !has_name(entries@, name@, j),
        decreases entries@.len() - i,
    {
        if entries[i].name == *name {
            return Some(i);
        }
        i += 1;
    }
    None
}

impl ApiServersService {
    /// No two entries share a name.
    #[verifier::type_invariant]
    spec fn wf(self) -> bool {
        names_distinct(self.instances@)
    }

    /// The workers by name.
    pub closed spec fn view(&self) -> Map<Seq<char>, InstanceView> {
        entries_map(self.instances@)
    }

    /// The tokens of the log-writer tasks not yet waited for.
    pub closed spec fn writers(&self) -> Seq<u64> {
        self.logs_join_handles@
    }

    /// The directory of the log files.
    pub closed spec fn logs_dir(&self) -> Seq<char> {
        self.logs_dir@
    }

    /// A registry without workers, with its logs in `logs_dir`.
    pub fn new(logs_dir: String) -> (service: Self)
        ensures
            service@ == Map::<Seq<char>, InstanceView>::empty(),
            service.writers() == Seq::<u64>::empty(),
            service.logs_dir() == logs_dir@,
    {
        let service = ApiServersService {
            instances: Vec::new(),
            logs_dir,
            logs_join_handles: Vec::new(),
        };
        assert(service@ =~= Map::<Seq<char>, InstanceView>::empty());
        service
    }

    /// The names of the two log files of the worker `name`: its standard
    /// output first.
    pub fn get_output_stream_filenames(name: &str) -> (files: (String, String))
        ensures
            files.0@ == stdout_file_name(name@),
            files.1@ == stderr_file_name(name@),
    {
        (String::from_str(name).concat("_stdout"), String::from_str(name).concat("_stderr"))
    }

    /// The name of the archive that takes the logs of the worker `name`.
    pub fn get_archive_filename(name: &str) -> (file: String)
        ensures
            file@ == archive_file_name(name@),
    {
        String::from_str(name).concat("_logs_archive.tar.gz")
    }

    /// What to launch for a worker `name`, and which log files to open in
    /// the logs directory.
    pub fn plan_spawn(&self, name: &str, server_args: &ServerArguments) -> (plan: SpawnPlan)
        ensures
            plan.program@ == LOCAL_SERVER_BIN_NAME@,
            texts(plan.arguments@) == command_arguments(
                server_args.port,
                server_args.dir@,
                server_args.watch_dir,
            ),
            plan.address@ == address_text(server_args.port),
            plan.stdout_file@ == path_join(self.logs_dir(), stdout_file_name(name@)),
            plan.stderr_file@ == path_join(self.logs_dir(), stderr_file_name(name@)),
    {
        let (stdout_file, stderr_file) = Self::get_output_stream_filenames(name);
        SpawnPlan {
            program: String::from_str(LOCAL_SERVER_BIN_NAME),
            arguments: command_line(server_args),
            address: local_address(server_args.port),
            stdout_file: join(self.logs_dir.as_str(), stdout_file.as_str()),
            stderr_file: join(self.logs_dir.as_str(), stderr_file.as_str()),
        }
    }

    /// Registers the worker that the caller started under `name`, or reports
    /// why there is none. A worker already known by that name loses its
    /// entry to the new one and is handed back: nothing supervises it any
    /// more. On failure the registry stays as it was.
    pub fn spawn(&mut self, name: String, server_args: &ServerArguments, outcome: SpawnOutcome) -> (r:
        Result<Option<ApiServerInstance>, ApiServersErr>)
        ensures
            final(self).logs_dir() == old(self).logs_dir(),
            match outcome {
                SpawnOutcome::Started { handle, writer } => {
                    &&& final(self)@ == old(self)@.insert(
                        name@,
                        InstanceView {
                            local: true,
                            address: address_text(server_args.port),
                            handle,
                        },
                    )
                    &&& final(self).writers() == old(self).writers().push(writer)
                    &&& r is Ok
                    &&& match r->Ok_0 {
                        Some(orphan) => old(self)@.dom().contains(name@) && orphan@ == old(
                            self,
                        )@[name@],
                        None => !old(self)@.dom().contains(name@),
                    }
                },
                SpawnOutcome::LaunchFailed(reason) => {
                    &&& final(self)@ == old(self)@
                    &&& final(self).writers() == old(self).writers()
                    &&& r matches Err(ApiServersErr::SpawnFailed(address, why))
                    &&& address@ == address_text(server_args.port)
                    &&& why == reason
                },
                SpawnOutcome::LogOpenFailed(path, reason) => {
                    &&& final(self)@ == old(self)@
                    &&& final(self).writers() == old(self).writers()
                    &&& r == Err::<Option<ApiServerInstance>, ApiServersErr>(
                        ApiServersErr::LogOpenFailed(path, reason),
                    )
                },
            },
    {
        proof {
            use_type_invariant(&*self);
        }
        let address = local_address(server_args.port);
        match outcome {
            SpawnOutcome::LaunchFailed(reason) => Err(ApiServersErr::SpawnFailed(address, reason)),
            SpawnOutcome::LogOpenFailed(path, reason) => Err(
                ApiServersErr::LogOpenFailed(path, reason),
            ),
            SpawnOutcome::Started { handle, writer } => {
                let mut writers: Vec<u64> = Vec::new();
                core::mem::swap(&mut writers, &mut self.logs_join_handles);
                writers.push(writer);
                self.logs_join_handles = writers;
                let mut instances: Vec<Entry> = Vec::new();
                core::mem::swap(&mut instances, &mut self.instances);
                let orphan = match position(&instances, &name) {
                    Some(i) => {
                        proof {
                            lemma_entry_found(instances@, i as int);
                            lemma_entry_removed(instances@, i as int);
                        }
                        let entry = instances.remove(i);
                        Some(entry.instance)
                    },
                    None => {
                        assert forall|j: int| 0 <= j < instances@.len() implies (
                        #[trigger] instances@[j]).name@ != name@ by {
                            assert(!has_name(instances@, name@, j));
                        }
                        None
                    },
                };
                assert(forall|j: int|
                    0 <= j < instances@.len() ==> (#[trigger] instances@[j]).name@ != name@);
                let entry = Entry {
                    name,
                    instance: ApiServerInstance { local: true, address, handle },
                };
                proof {
                    lemma_entry_pushed(instances@, entry);
                    assert(old(self)@.remove(name@).insert(name@, entry.instance@) =~= old(
                        self,
                    )@.insert(name@, entry.instance@));
                    if orphan is None {
                        assert(!old(self)@.dom().contains(name@));
                    }
                }
                instances.push(entry);
                self.instances = instances;
                Ok(orphan)
            },
        }
    }

    /// The worker known by `name`, if there is one.
    pub fn server_instance(&self, name: &String) -> (found: Option<&ApiServerInstance>)
        ensures
            match found {
                Some(instance) => self@.dom().contains(name@) && instance@ == self@[name@],
                None => !self@.dom().contains(name@),
            },
    {
        proof {
            use_type_invariant(&*self);
        }
        match position(&self.instances, name) {
            Some(i) => {
                proof {
                    lemma_entry_found(self.instances@, i as int);
                }
                Some(&self.instances[i].instance)
            },
            None => None,
        }
    }

    /// A listing of the workers: each one known is listed once, under its
    /// name, and nothing else is listed. The order is not fixed.
    pub fn server_instances(&self) -> (listing: Vec<InstanceInfo>)
        ensures
            forall|i: int|
                0 <= i < listing@.len() ==> {
                    &&& self@.dom().contains(#[trigger] listing@[i].name@)
                    &&& self@[listing@[i].name@].local == listing@[i].local
                    &&& self@[listing@[i].name@].address == listing@[i].address@
                },
            forall|i: int, j: int|
                0 <= i < listing@.len() && 0 <= j < listing@.len() && i != j ==> listing@[i].name@
                    != listing@[j].name@,
            forall|name: Seq<char>|
                self@.dom().contains(name) ==> exists|i: int|
                    0 <= i < listing@.len() && #[trigger] listing@[i].name@ == name,
    {
        proof {
            use_type_invariant(&*self);
        }
        let mut listing: Vec<InstanceInfo> = Vec::new();
        let mut k: usize = 0;
        while k < self.instances.len()
            invariant
                k <= self.instances@.len(),
                listing@.len() == k,
                names_distinct(self.instances@),
                forall|i: int|
                    0 <= i < k ==> {
                        &&& (#[trigger] listing@[i]).name@ == self.instances@[i].name@
                        &&& listing@[i].local == self.instances@[i].instance.local
                        &&& listing@[i].address@ == self.instances@[i].instance.address@
                    },
            decreases self.instances@.len() - k,
        {
            let entry = &self.instances[k];
            listing.push(
                InstanceInfo {
                    name: entry.name.clone(),
                    local: entry.instance.local,
                    address: entry.instance.address.clone(),
                },
            );
            k += 1;
        }
        proof {
            assert forall|i: int| 0 <= i < listing@.len() implies {
                &&& self@.dom().contains(#[trigger] listing@[i].name@)
                &&& self@[listing@[i].name@].local == listing@[i].local
                &&& self@[listing@[i].name@].address == listing@[i].address@
            } by {
                lemma_entry_found(self.instances@, i);
            }
            assert forall|name: Seq<char>| self@.dom().contains(name) implies exists|i: int|
                0 <= i < listing@.len() && #[trigger] listing@[i].name@ == name by {
                let i = choose|i: int| has_name(self.instances@, name, i);
                assert(listing@[i].name@ == name);
            }
        }
        listing
    }

    /// Takes the worker `name` out of the registry so that it can be
    /// stopped. Whatever comes of stopping it, the registry no longer knows
    /// the name.
    pub fn stop(&mut self, name: &String) -> (r: Result<ApiServerInstance, ApiServersErr>)
        ensures
            final(self)@ == old(self)@.remove(name@),
            final(self).writers() == old(self).writers(),
            final(self).logs_dir() == old(self).logs_dir(),
            match r {
                Ok(instance) => old(self)@.dom().contains(name@) && instance@ == old(self)@[name@],
                Err(err) => err matches ApiServersErr::NotFound(n) && n@ == name@ && !old(
                    self,
                )@.dom().contains(name@),
            },
    {
        proof {
            use_type_invariant(&*self);
        }
        match position(&self.instances, name) {
            Some(i) => {
                let mut instances: Vec<Entry> = Vec::new();
                core::mem::swap(&mut instances, &mut self.instances);
                proof {
                    lemma_entry_found(instances@, i as int);
                    lemma_entry_removed(instances@, i as int);
                }
                let entry = instances.remove(i);
                self.instances = instances;
                Ok(entry.instance)
            },
            None => {
                assert(old(self)@.remove(name@) =~= old(self)@);
                Err(ApiServersErr::NotFound(name.clone()))
            },
        }
    }

    /// The log files of the worker `name`, its standard output first, for
    /// reading. Only a worker that the registry knows has logs to read.
    pub fn get_logs_readers(&self, name: &String) -> (r: Result<(String, String), String>)
        ensures
            match r {
                Ok(files) => self@.dom().contains(name@) && files.0@ == path_join(
                    self.logs_dir(),
                    stdout_file_name(name@),
                ) && files.1@ == path_join(self.logs_dir(), stderr_file_name(name@)),
                Err(msg) => !self@.dom().contains(name@) && msg@ == "No api server instance with name "@
                    + name@ + " exists"@,
            },
    {
        proof {
            use_type_invariant(&*self);
        }
        if self.server_instance(name).is_none() {
            let mut msg = String::from_str("No api server instance with name ");
            msg.append(name.as_str());
            msg.append(" exists");
            return Err(msg);
        }
        let (stdout, stderr) = Self::get_output_stream_filenames(name.as_str());
        Ok((join(self.logs_dir.as_str(), stdout.as_str()), join(self.logs_dir.as_str(), stderr.as_str())))
    }

    /// What archiving the logs of the worker `name` works on: its two log
    /// files, and the archive that takes them, all in the logs directory.
    pub fn archive_logs(&self, name: &str) -> (plan: ArchivePlan)
        ensures
            plan.stdout_path@ == path_join(self.logs_dir(), stdout_file_name(name@)),
            plan.stderr_path@ == path_join(self.logs_dir(), stderr_file_name(name@)),
            plan.archive_path@ == path_join(self.logs_dir(), archive_file_name(name@)),
    {
        let (stdout, stderr) = Self::get_output_stream_filenames(name);
        let archive = Self::get_archive_filename(name);
        ArchivePlan {
            stdout_path: join(self.logs_dir.as_str(), stdout.as_str()),
            stderr_path: join(self.logs_dir.as_str(), stderr.as_str()),
            archive_path: join(self.logs_dir.as_str(), archive.as_str()),
        }
    }

    /// Hands out the tokens of all log-writer tasks, for the caller to wait
    /// for them no longer than `shutdown_timeout` seconds, and forgets
    /// them: the tasks are waited for here and nowhere else.
    pub fn shutdown(&mut self, shutdown_timeout: u32) -> (wait: WritersWait)
        ensures
            final(self)@ == old(self)@,
            final(self).logs_dir() == old(self).logs_dir(),
            wait.writers@ == old(self).writers(),
            wait.timeout_seconds == shutdown_timeout,
            final(self).writers() == Seq::<u64>::empty(),
    {
        proof {
            use_type_invariant(&*self);
        }
        let mut writers: Vec<u64> = Vec::new();
        core::mem::swap(&mut writers, &mut self.logs_join_handles);
        WritersWait { writers, timeout_seconds: shutdown_timeout }
    }
}

/// A worker registered under a name that is already taken takes the name
/// over: the name then leads to the second worker, and the names known are
/// those known after the first was registered.
pub proof fn lemma_respawn_takes_over(
    before: Map<Seq<char>, InstanceView>,
    name: Seq<char>,
    first: InstanceView,
    second: InstanceView,
)
    ensures
        before.insert(name, first).insert(name, second) == before.insert(name, second),
        before.insert(name, first).insert(name, second).dom() == before.insert(name, first).dom(),
        before.insert(name, first).insert(name, second)[name] == second,
{
    assert(before.insert(name, first).insert(name, second) =~= before.insert(name, second));
    assert(before.insert(name, first).insert(name, second).dom() =~= before.insert(
        name,
        first,
    ).dom());
}

/// A worker taken out to be stopped is no longer known by its name; every
/// other worker is known as before.
pub proof fn lemma_stopped_is_unlisted(
    before: Map<Seq<char>, InstanceView>,
    name: Seq<char>,
    other: Seq<char>,
)
    requires
        other != name,
    ensures
        !before.remove(name).dom().contains(name),
        before.remove(name).dom().contains(other) == before.dom().contains(other),
        before.dom().contains(other) ==> before.remove(name)[other] == before[other],
{
}

/// Stopping ends well only at its last step, after the process was
/// signalled and waited for, the logs were packed and both raw log files
/// removed, in that order; a failure ends it at the step where it happened.
pub proof fn lemma_stop_ends_after_all_steps(step: StopStep, outcome: Result<(), String>)
    ensures
        outcome is Err ==> next_stop_step(step, outcome) is None,
        outcome is Ok ==> (next_stop_step(step, outcome) is None <==> step
            == StopStep::RemoveStderr),
        outcome is Ok && step == StopStep::Signal ==> next_stop_step(step, outcome) == Some(
            StopStep::Wait,
        ),
        outcome is Ok && step == StopStep::Wait ==> next_stop_step(step, outcome) == Some(
            StopStep::Compress,
        ),
        outcome is Ok && step == StopStep::Compress ==> next_stop_step(step, outcome) == Some(
            StopStep::RemoveStdout,
        ),
        outcome is Ok && step == StopStep::RemoveStdout ==> next_stop_step(step, outcome) == Some(
            StopStep::RemoveStderr,
        ),
{
}

/// The words for a wait for the log writers that ran out of time.
pub open spec fn writers_timeout_text(shutdown_timeout: u32) -> Seq<char> {
    "forcing shutdown due to timeout on waiting for all streams of "@ + decimal_digits(
        shutdown_timeout as nat,
    ) + " seconds"@
}

/// How the wait for the log writers ended: well when all of them finished
/// in time, else with the warning under which the shutdown goes on without
/// them.
pub fn after_writers_wait(finished_in_time: bool, shutdown_timeout: u32) -> (r: Result<(), String>)
    ensures
        match r {
            Ok(_) => finished_in_time,
            Err(warning) => !finished_in_time && warning@ == writers_timeout_text(
                shutdown_timeout,
            ),
        },
{
    if finished_in_time {
        return Ok(());
    }
    let mut warning = String::from_str(
        "forcing shutdown due to timeout on waiting for all streams of ",
    );
    push_decimal(&mut warning, shutdown_timeout as usize);
    warning.append(" seconds");
    Err(warning)
}

/// The process to signal when stopping the worker `name`: the id that the
/// operating system still reports for it, or the refusal to stop a process
/// that has already ended.
pub fn signal_target(name: &String, os_id: Option<u32>) -> (r: Result<u32, ApiServersErr>)
    ensures
        match os_id {
            Some(id) => r == Ok::<u32, ApiServersErr>(id),
            None => r matches Err(ApiServersErr::AlreadyFinished(n)) && n@ == name@,
        },
{
    match os_id {
        Some(id) => Ok(id),
        None => Err(ApiServersErr::AlreadyFinished(name.clone())),
    }
}

} // verus!
