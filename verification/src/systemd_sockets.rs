//! Support for systemd activated sockets.
//!
//! systemd can create sockets on behalf of services and pass them on. The service finds them
//! through environment variables:
//!
//! 1. `LISTEN_PID` holds the process id of the process that systemd started. It is compared with
//!    the id of the current process before anything else is looked at, so that no child takes the
//!    variables for its own.
//! 2. `LISTEN_FDNAMES` holds the names of the descriptors that were passed, separated by `:`. The
//!    first of them is descriptor 3, and the others follow. `LISTEN_FDS`, their number, is not
//!    read.
//!
//! Only descriptors with a name of their own can be found. Ignored are those with an empty name,
//! those with one of the special names "unknown", "stored" and "connection", and those with a name
//! that stood before. Every descriptor that was passed is to be marked close-on-exec, whether it is
//! kept or ignored.

use vstd::prelude::*;
use vstd::string::*;

use crate::text;
use crate::text::NumberFault;

verus! {

/// The first descriptor that systemd passes.
pub const SD_LISTEN_FDS_START: i32 = 3;

/// Returned when systemd sockets are first read from environment variables.
#[derive(Debug)]
pub enum SystemdSocketsReadError {
    /// Missing or malformed environment variables.
    EnvironmentVariableError(String),
    /// `LISTEN_PID` does not match the current process.
    DoesNotMatchListenPid,
    /// The sockets are read more than once.
    DuplicateSystemdSocketsRead,
}

/// A [`SystemdSocketsReadError`] with its text as a sequence of characters.
pub enum ReadErrorView {
    EnvironmentVariableError(Seq<char>),
    DoesNotMatchListenPid,
    DuplicateSystemdSocketsRead,
}

impl View for SystemdSocketsReadError {
    type V = ReadErrorView;

    open spec fn view(&self) -> ReadErrorView {
        match *self {
            SystemdSocketsReadError::EnvironmentVariableError(message) => {
                ReadErrorView::EnvironmentVariableError(message@)
            },
            SystemdSocketsReadError::DoesNotMatchListenPid => ReadErrorView::DoesNotMatchListenPid,
            SystemdSocketsReadError::DuplicateSystemdSocketsRead => {
                ReadErrorView::DuplicateSystemdSocketsRead
            },
        }
    }
}

/// Returned when a socket is looked up.
#[derive(Debug)]
pub enum SystemdSocketError {
    /// The sockets were not read.
    SystemdSocketsNotInitialized,
    /// The socket was not found among the sockets passed by systemd.
    SocketNotFoundInParent(String),
    /// The socket was not found in the registry.
    SocketNotFoundInChildRegistry(String),
    /// An I/O error.
    IoError(std::io::Error),
    /// The registered information does not match the socket's bind information.
    SockInfoIncorrect(String),
}

impl From<std::io::Error> for SystemdSocketError {
    fn from(e: std::io::Error) -> (r: Self) {
        SystemdSocketError::IoError(e)
    }
}

impl vstd::std_specs::convert::FromSpecImpl<std::io::Error> for SystemdSocketError {
    open spec fn obeys_from_spec() -> bool {
        true
    }

    open spec fn from_spec(e: std::io::Error) -> Self {
        SystemdSocketError::IoError(e)
    }
}

/// A name that systemd gives to descriptors that have none of their own.
pub open spec fn is_special(name: Seq<char>) -> bool {
    name == "unknown"@ || name == "stored"@ || name == "connection"@
}

/// A name by which a descriptor can be found: one that is not empty and not special.
pub open spec fn is_proper(name: Seq<char>) -> bool {
    name.len() > 0 && !is_special(name)
}

/// The descriptors that can be found by name: of each proper name, the descriptor where it stands
/// first. The others use up their numbers all the same.
pub open spec fn named_fds(names: Seq<Seq<char>>) -> Map<Seq<char>, i32> {
    Map::new(
        |name: Seq<char>| names.contains(name) && is_proper(name),
        |name: Seq<char>| (SD_LISTEN_FDS_START + names.index_of_first(name).unwrap()) as i32,
    )
}

/// Why a descriptor is ignored.
#[derive(Clone, Copy, Debug, Eq, PartialEq, Structural)]
pub enum IgnoredCause {
    /// Its name is empty.
    Anonymous,
    /// Its name is one of the special names.
    Special,
    /// Its name stood before.
    Duplicate,
}

/// A descriptor that is ignored.
#[derive(Debug)]
pub struct IgnoredFd {
    pub name: String,
    pub fd: i32,
    pub cause: IgnoredCause,
}

/// An [`IgnoredFd`] with its name as a sequence of characters.
pub struct IgnoredView {
    pub name: Seq<char>,
    pub fd: i32,
    pub cause: IgnoredCause,
}

impl View for IgnoredFd {
    type V = IgnoredView;

    open spec fn view(&self) -> IgnoredView {
        IgnoredView { name: self.name@, fd: self.fd, cause: self.cause }
    }
}

impl IgnoredView {
    /// What to say of the descriptor.
    pub open spec fn described(self) -> Seq<char> {
        (if self.cause == IgnoredCause::Duplicate {
            "duplicate FDNAME \""@
        } else {
            "socket name not supported. FDNAME \""@
        }) + self.name + "\", fd "@ + text::signed_decimal(self.fd as int) + " ignored"@
    }
}

impl IgnoredFd {
    /// What to say of the descriptor.
    pub fn describe(&self) -> (line: String)
        ensures
            line@ == self@.described(),
    {
        let mut line: String = match self.cause {
            IgnoredCause::Duplicate => "duplicate FDNAME \"".to_owned(),
            _ => "socket name not supported. FDNAME \"".to_owned(),
        };
        line.append(self.name.as_str());
        line.append("\", fd ");
        text::push_signed(&mut line, self.fd);
        line.append(" ignored");
        line
    }
}

/// Why a descriptor of the name `name` is ignored, after descriptors of the names `before`, if it is.
pub open spec fn ignored_cause(before: Seq<Seq<char>>, name: Seq<char>) -> Option<IgnoredCause> {
    if name.len() == 0 {
        Some(IgnoredCause::Anonymous)
    } else if is_special(name) {
        Some(IgnoredCause::Special)
    } else if before.contains(name) {
        Some(IgnoredCause::Duplicate)
    } else {
        None
    }
}

/// The descriptors that are ignored, in the order of their numbers.
pub open spec fn ignored(names: Seq<Seq<char>>) -> Seq<IgnoredView>
    decreases names.len(),
{
    if names.len() == 0 {
        seq![]
    } else {
        let before = names.drop_last();
        match ignored_cause(before, names.last()) {
            Some(cause) => ignored(before).push(
                IgnoredView {
                    name: names.last(),
                    fd: (SD_LISTEN_FDS_START + before.len()) as i32,
                    cause,
                },
            ),
            None => ignored(before),
        }
    }
}

/// What ignored descriptors are.
pub open spec fn ignored_views(fds: Seq<IgnoredFd>) -> Seq<IgnoredView> {
    fds.map_values(|fd: IgnoredFd| fd@)
}

/// The descriptors that systemd passed.
pub struct SystemdSockets {
    entries: Vec<(String, i32)>,
    ignored: Vec<IgnoredFd>,
    passed: usize,
}

/// What a [`SystemdSockets`] holds.
pub struct SocketsView {
    /// The descriptors that can be found by name.
    pub named: Map<Seq<char>, i32>,
    /// The descriptors that are ignored.
    pub ignored: Seq<IgnoredView>,
    /// How many descriptors were passed.
    pub passed: nat,
}

spec fn entries_map(entries: Seq<(String, i32)>) -> Map<Seq<char>, i32>
    decreases entries.len(),
{
    if entries.len() == 0 {
        Map::empty()
    } else {
        entries_map(entries.drop_last()).insert(entries.last().0@, entries.last().1)
    }
}

impl View for SystemdSockets {
    type V = SocketsView;

    closed spec fn view(&self) -> SocketsView {
        SocketsView {
            named: entries_map(self.entries@),
            ignored: ignored_views(self.ignored@),
            passed: self.passed as nat,
        }
    }
}

proof fn lemma_entries(entries: Seq<(String, i32)>, i: int)
    requires
        0 <= i < entries.len(),
        forall|j: int, k: int|
            0 <= j < k < entries.len() ==> (#[trigger] entries[j]).0@ != (#[trigger] entries[k]).0@,
    ensures
        entries_map(entries).dom().contains(entries[i].0@),
        entries_map(entries)[entries[i].0@] == entries[i].1,
    decreases entries.len(),
{
    if i < entries.len() - 1 {
        let rest = entries.drop_last();
        assert(rest[i] == entries[i]);
        lemma_entries(rest, i);
        assert(entries[i].0@ != entries[entries.len() - 1].0@);
    }
}

proof fn lemma_no_entry(entries: Seq<(String, i32)>, name: Seq<char>)
    requires
        forall|i: int| 0 <= i < entries.len() ==> (#[trigger] entries[i]).0@ != name,
    ensures
        !entries_map(entries).dom().contains(name),
    decreases entries.len(),
{
    if entries.len() > 0 {
        let rest = entries.drop_last();
        assert forall|i: int| 0 <= i < rest.len() implies (#[trigger] rest[i]).0@ != name by {
            assert(rest[i] == entries[i]);
        }
        lemma_no_entry(rest, name);
        assert(entries[entries.len() - 1].0@ != name);
    }
}

proof fn lemma_named_step(names: Seq<Seq<char>>, k: int)
    requires
        0 <= k < names.len(),
    ensures
        names.take(k + 1) == names.take(k).push(names[k]),
        named_fds(names.take(k)).dom().contains(names[k]) <==> is_proper(names[k]) && names.take(
            k,
        ).contains(names[k]),
        named_fds(names.take(k + 1)) == (if ignored_cause(names.take(k), names[k]) is Some {
            named_fds(names.take(k))
        } else {
            named_fds(names.take(k)).insert(names[k], (SD_LISTEN_FDS_START + k) as i32)
        }),
{
    let before = names.take(k);
    let after = names.take(k + 1);
    assert(after =~= before.push(names[k]));
    assert forall|name: Seq<char>|
        #![trigger before.contains(name)]
        #![trigger after.contains(name)]
        {
            &&& after.contains(name) <==> before.contains(name) || name == names[k]
            &&& before.contains(name) ==> after.index_of_first(name) == before.index_of_first(name)
            &&& !before.contains(name) && name == names[k] ==> after.index_of_first(name) == Some(k)
        } by {
        before.index_of_first_ensures(name);
        after.index_of_first_ensures(name);
        if before.contains(name) {
            let i = choose|i: int| 0 <= i < before.len() && before[i] == name;
            assert(after[i] == name);
            let b = before.index_of_first(name).unwrap();
            let a = after.index_of_first(name).unwrap();
            if a < b {
                assert(before[a] == after[a]);
            }
            if b < a {
                assert(after[b] == before[b]);
            }
        }
        if name == names[k] {
            assert(after[k] == name);
            if !before.contains(name) {
                let a = after.index_of_first(name).unwrap();
                if a < k {
                    assert(before[a] == after[a]);
                }
            }
        }
        if after.contains(name) && name != names[k] {
            let i = choose|i: int| 0 <= i < after.len() && after[i] == name;
            assert(before[i] == name);
        }
    }
    let expected = if ignored_cause(before, names[k]) is Some {
        named_fds(before)
    } else {
        named_fds(before).insert(names[k], (SD_LISTEN_FDS_START + k) as i32)
    };
    assert(named_fds(after) =~= expected);
}

fn empty(name: &String) -> (r: bool)
    ensures
        r == (name@.len() == 0),
{
    let nothing: String = String::new();
    assert(name@.len() == 0 ==> name@ =~= nothing@);
    *name == nothing
}

fn special(name: &String) -> (r: bool)
    ensures
        r == is_special(name@),
{
    let unknown: String = "unknown".to_owned();
    let stored: String = "stored".to_owned();
    let connection: String = "connection".to_owned();
    *name == unknown || *name == stored || *name == connection
}

/// What a variable holds, or why it cannot be read.
pub open spec fn variable(value: Result<String, String>) -> Result<Seq<char>, Seq<char>> {
    match value {
        Ok(text) => Ok(text@),
        Err(why) => Err(why@),
    }
}

/// How a fault in a number is written.
pub open spec fn fault_label(fault: NumberFault) -> Seq<char> {
    match fault {
        NumberFault::Empty => "ParseIntError { kind: Empty }"@,
        NumberFault::InvalidDigit => "ParseIntError { kind: InvalidDigit }"@,
        NumberFault::PosOverflow => "ParseIntError { kind: PosOverflow }"@,
        NumberFault::NegOverflow => "ParseIntError { kind: NegOverflow }"@,
    }
}

fn fault_text(fault: NumberFault) -> (r: &'static str)
    ensures
        r@ == fault_label(fault),
{
    match fault {
        NumberFault::Empty => "ParseIntError { kind: Empty }",
        NumberFault::InvalidDigit => "ParseIntError { kind: InvalidDigit }",
        NumberFault::PosOverflow => "ParseIntError { kind: PosOverflow }",
        NumberFault::NegOverflow => "ParseIntError { kind: NegOverflow }",
    }
}

/// What comes of reading the variables in the process `process_id`.
pub open spec fn sockets_read(
    listen_pid: Result<Seq<char>, Seq<char>>,
    listen_fd_names: Result<Seq<char>, Seq<char>>,
    process_id: u32,
) -> Result<SocketsView, ReadErrorView> {
    match listen_pid {
        Err(why) => Err(
            ReadErrorView::EnvironmentVariableError("env LISTEN_PID missing "@ + why),
        ),
        Ok(pid) => match text::parsed_i32(pid) {
            Err(fault) => Err(
                ReadErrorView::EnvironmentVariableError(
                    "parsing pid from string failed "@ + fault_label(fault),
                ),
            ),
            Ok(pid) => if pid != process_id as i32 {
                Err(ReadErrorView::DoesNotMatchListenPid)
            } else {
                match listen_fd_names {
                    Err(why) => Err(
                        ReadErrorView::EnvironmentVariableError(
                            "env LISTEN_FDNAMES missing "@ + why,
                        ),
                    ),
                    Ok(fd_names) => {
                        let names = text::split_on(fd_names, ':');
                        Ok(
                            SocketsView {
                                named: named_fds(names),
                                ignored: ignored(names),
                                passed: names.len(),
                            },
                        )
                    },
                }
            },
        },
    }
}

/// What names a socket, as it is written in messages: the `Debug` form of the string.
pub uninterp spec fn quoted(name: Seq<char>) -> Seq<char>;

/// The `Debug` form of a string, which is a function of the string alone: its characters between
/// double quotes, with those escaped that the standard library escapes.
#[verifier::external_body]
fn quote(name: &str) -> (r: String)
    ensures
        r@ == quoted(name@),
{
    format!("{:?}", name)
}

/// What is said of a name, quoted, that no descriptor has.
pub fn not_found_message(quoted_name: &str) -> (message: String)
    ensures
        message@ == "fd "@ + quoted_name@ + " not found LISTEN_FDNAMES"@,
{
    let mut message: String = "fd ".to_owned();
    message.append(quoted_name);
    message.append(" not found LISTEN_FDNAMES");
    message
}

impl SystemdSockets {
    #[verifier::type_invariant]
    spec fn distinct(self) -> bool {
        &&& forall|j: int, k: int|
            0 <= j < k < self.entries@.len() ==> (#[trigger] self.entries@[j]).0@ != (
            #[trigger] self.entries@[k]).0@
        &&& self.passed + SD_LISTEN_FDS_START - 1 <= i32::MAX
    }

    /// Reads the variables `LISTEN_PID` and `LISTEN_FDNAMES` in the process `process_id`, the second
    /// only if the first names this process. Of a variable that cannot be read, the reason is given
    /// instead.
    pub fn new(
        listen_pid: Result<String, String>,
        listen_fd_names: Result<String, String>,
        process_id: u32,
    ) -> (r: Result<SystemdSockets, SystemdSocketsReadError>)
        requires
            listen_fd_names matches Ok(names) ==> text::split_on(names@, ':').len()
                + SD_LISTEN_FDS_START - 1 <= i32::MAX,
        ensures
            match r {
                Ok(sockets) => sockets_read(
                    variable(listen_pid),
                    variable(listen_fd_names),
                    process_id,
                ) == Ok::<SocketsView, ReadErrorView>(sockets@),
                Err(error) => sockets_read(
                    variable(listen_pid),
                    variable(listen_fd_names),
                    process_id,
                ) == Err::<SocketsView, ReadErrorView>(error@),
            },
    {
        let pid_text: String = match listen_pid {
            Ok(pid_text) => pid_text,
            Err(why) => {
                let mut message: String = "env LISTEN_PID missing ".to_owned();
                message.append(why.as_str());
                return Err(SystemdSocketsReadError::EnvironmentVariableError(message));
            },
        };
        let pid: i32 = match text::parse_i32(pid_text.as_str()) {
            Ok(pid) => pid,
            Err(fault) => {
                let mut message: String = "parsing pid from string failed ".to_owned();
                message.append(fault_text(fault));
                return Err(SystemdSocketsReadError::EnvironmentVariableError(message));
            },
        };
        if pid != process_id as i32 {
            return Err(SystemdSocketsReadError::DoesNotMatchListenPid);
        }
        let fd_names: String = match listen_fd_names {
            Ok(fd_names) => fd_names,
            Err(why) => {
                let mut message: String = "env LISTEN_FDNAMES missing ".to_owned();
                message.append(why.as_str());
                return Err(SystemdSocketsReadError::EnvironmentVariableError(message));
            },
        };
        let names: Vec<String> = text::split(fd_names.as_str(), ':');
        let ghost all = text::contents(names@);
        proof {
            assert(names@.len() == all.len());
            assert(all.take(0) =~= Seq::<Seq<char>>::empty());
            assert(named_fds(all.take(0)) =~= Map::<Seq<char>, i32>::empty());
        }
        let mut entries: Vec<(String, i32)> = Vec::new();
        let mut lost: Vec<IgnoredFd> = Vec::new();
        assert(ignored_views(lost@) =~= ignored(all.take(0)));
        let mut i: usize = 0;
        while i < names.len()
            invariant
                i <= names@.len(),
                names@.len() + SD_LISTEN_FDS_START - 1 <= i32::MAX,
                all == text::contents(names@),
                entries_map(entries@) == named_fds(all.take(i as int)),
                ignored_views(lost@) == ignored(all.take(i as int)),
                forall|j: int, k: int|
                    0 <= j < k < entries@.len() ==> (#[trigger] entries@[j]).0@ != (
                    #[trigger] entries@[k]).0@,
            decreases names@.len() - i,
        {
            let fd: i32 = SD_LISTEN_FDS_START + i as i32;
            let name: &String = &names[i];
            proof {
                assert(all[i as int] == name@);
                lemma_named_step(all, i as int);
                assert(all.take(i + 1).drop_last() =~= all.take(i as int));
            }
            let cause: Option<IgnoredCause> = if empty(name) {
                Some(IgnoredCause::Anonymous)
            } else if special(name) {
                Some(IgnoredCause::Special)
            } else if lookup(&entries, name).is_some() {
                Some(IgnoredCause::Duplicate)
            } else {
                None
            };
            assert(cause == ignored_cause(all.take(i as int), all[i as int]));
            match cause {
                Some(cause) => {
                    let ghost before = ignored_views(lost@);
                    lost.push(IgnoredFd { name: name.clone(), fd, cause });
                    assert(ignored_views(lost@) =~= before.push(
                        IgnoredView { name: name@, fd, cause },
                    ));
                },
                None => {
                    let ghost before = entries@;
                    entries.push((name.clone(), fd));
                    assert(entries@.drop_last() =~= before);
                },
            }
            i = i + 1;
        }
        assert(all.take(all.len() as int) =~= all);
        Ok(SystemdSockets { entries, ignored: lost, passed: names.len() })
    }

    /// The descriptor of a name. Whoever asks for it has to register it, for it to be passed on to
    /// a child.
    pub fn find(&self, name: String) -> (r: Result<i32, SystemdSocketError>)
        ensures
            if self@.named.dom().contains(name@) {
                r == Ok::<i32, SystemdSocketError>(self@.named[name@])
            } else {
                r matches Err(SystemdSocketError::SocketNotFoundInParent(message)) && message@
                    == "fd "@ + quoted(name@) + " not found LISTEN_FDNAMES"@
            },
    {
        proof {
            use_type_invariant(self);
        }
        match lookup(&self.entries, &name) {
            Some(fd) => Ok(fd),
            None => Err(
                SystemdSocketError::SocketNotFoundInParent(
                    not_found_message(quote(name.as_str()).as_str()),
                ),
            ),
        }
    }

    /// The descriptors that are ignored, in the order of their numbers.
    pub fn ignored_fds(&self) -> (fds: &Vec<IgnoredFd>)
        ensures
            ignored_views(fds@) == self@.ignored,
    {
        &self.ignored
    }

    /// All descriptors that were passed, found by name or ignored. Each is to be marked
    /// close-on-exec.
    pub fn passed_fds(&self) -> (fds: Vec<i32>)
        ensures
            fds@ == Seq::new(self@.passed, |i: int| (SD_LISTEN_FDS_START + i) as i32),
    {
        proof {
            use_type_invariant(self);
        }
        let mut fds: Vec<i32> = Vec::new();
        let mut i: usize = 0;
        while i < self.passed
            invariant
                i <= self.passed,
                self.passed + SD_LISTEN_FDS_START - 1 <= i32::MAX,
                fds@ == Seq::new(i as nat, |k: int| (SD_LISTEN_FDS_START + k) as i32),
            decreases self.passed - i,
        {
            fds.push(SD_LISTEN_FDS_START + i as i32);
            i = i + 1;
        }
        fds
    }
}

fn lookup(entries: &Vec<(String, i32)>, name: &String) -> (r: Option<i32>)
    requires
        forall|j: int, k: int|
            0 <= j < k < entries@.len() ==> (#[trigger] entries@[j]).0@ != (
            #[trigger] entries@[k]).0@,
    ensures
        match r {
            Some(fd) => entries_map(entries@).dom().contains(name@) && entries_map(entries@)[name@]
                == fd,
            None => {
                &&& !entries_map(entries@).dom().contains(name@)
                &&& forall|i: int| 0 <= i < entries@.len() ==> (#[trigger] entries@[i]).0@ != name@
            },
        },
{
    let mut i: usize = 0;
    while i < entries.len()
        invariant
            i <= entries@.len(),
            forall|j: int| 0 <= j < i ==> (#[trigger] entries@[j]).0@ != name@,
            forall|j: int, k: int|
                0 <= j < k < entries@.len() ==> (#[trigger] entries@[j]).0@ != (
                #[trigger] entries@[k]).0@,
        decreases entries@.len() - i,
    {
        if entries[i].0 == *name {
            proof {
                lemma_entries(entries@, i as int);
            }
            return Some(entries[i].1);
        }
        i = i + 1;
    }
    proof {
        lemma_no_entry(entries@, name@);
    }
    None
}

/// The process is looked at first: where the variables are meant for another one, nothing is made of
/// the names, whatever they are and whether they can be read or not.
pub proof fn law_variables_of_another_process_are_left_alone(
    listen_pid: Seq<char>,
    listen_fd_names: Result<Seq<char>, Seq<char>>,
    process_id: u32,
)
    requires
        text::parsed_i32(listen_pid) matches Ok(pid) && pid != process_id as i32,
    ensures
        sockets_read(Ok(listen_pid), listen_fd_names, process_id) == Err::<
            SocketsView,
            ReadErrorView,
        >(ReadErrorView::DoesNotMatchListenPid),
{
}

/// A descriptor is found by its name if and only if the name is among those that were passed, is not
/// empty and is not special, and it is then the one where the name stands first: every later
/// descriptor of the same name is ignored.
pub proof fn law_first_name_wins(names: Seq<Seq<char>>, i: int)
    requires
        0 <= i < names.len(),
        names.len() + SD_LISTEN_FDS_START - 1 <= i32::MAX,
    ensures
        named_fds(names).dom().contains(names[i]) <==> names[i].len() > 0 && !is_special(names[i]),
        !named_fds(names).dom().contains(seq![]),
        is_proper(names[i]) && (forall|j: int| 0 <= j < i ==> names[j] != names[i]) ==> named_fds(
            names,
        )[names[i]] == SD_LISTEN_FDS_START + i,
        is_proper(names[i]) && (exists|j: int| 0 <= j < i && names[j] == names[i]) ==> named_fds(
            names,
        )[names[i]] < SD_LISTEN_FDS_START + i,
{
    names.index_of_first_ensures(names[i]);
}

/// Every descriptor that is found by name is one of those that were passed, and so one of those
/// that are to be marked close-on-exec.
pub proof fn law_found_descriptors_were_passed(names: Seq<Seq<char>>, name: Seq<char>)
    requires
        names.len() + SD_LISTEN_FDS_START - 1 <= i32::MAX,
        named_fds(names).dom().contains(name),
    ensures
        SD_LISTEN_FDS_START <= named_fds(names)[name] < SD_LISTEN_FDS_START + names.len(),
        names[named_fds(names)[name] - SD_LISTEN_FDS_START] == name,
{
    names.index_of_first_ensures(name);
}

/// The descriptor `fd` is among those that are ignored.
pub open spec fn is_ignored(names: Seq<Seq<char>>, fd: int) -> bool {
    exists|k: int| 0 <= k < ignored(names).len() && (#[trigger] ignored(names)[k]).fd == fd
}

proof fn lemma_ignored(names: Seq<Seq<char>>, i: int)
    requires
        0 <= i,
        names.len() + SD_LISTEN_FDS_START - 1 <= i32::MAX,
    ensures
        is_ignored(names, SD_LISTEN_FDS_START + i) <==> i < names.len() && ignored_cause(
            names.take(i),
            names[i],
        ) is Some,
    decreases names.len(),
{
    let fd = SD_LISTEN_FDS_START + i;
    if names.len() > 0 {
        let before = names.drop_last();
        let last = before.len() as int;
        lemma_ignored(before, i);
        assert(before =~= names.take(last));
        if i < last {
            assert(before.take(i) =~= names.take(i));
        }
        let old = ignored(before);
        let new = ignored(names);
        if is_ignored(before, fd) {
            let k = choose|k: int| 0 <= k < old.len() && (#[trigger] old[k]).fd == fd;
            assert(new[k].fd == fd);
        }
        if is_ignored(names, fd) && i != last {
            let k = choose|k: int| 0 <= k < new.len() && (#[trigger] new[k]).fd == fd;
            assert(old[k].fd == fd);
        }
        if i == last && ignored_cause(before, names.last()) is Some {
            assert(new[old.len() as int].fd == fd);
        }
    }
}

/// Every descriptor that was passed is either found by its name or ignored, and never both; no other
/// descriptor is ignored.
pub proof fn law_descriptors_are_found_or_ignored(names: Seq<Seq<char>>, i: int)
    requires
        0 <= i,
        names.len() + SD_LISTEN_FDS_START - 1 <= i32::MAX,
    ensures
        i < names.len() ==> (is_ignored(names, SD_LISTEN_FDS_START + i) <==> !(
        named_fds(names).dom().contains(names[i]) && named_fds(names)[names[i]]
            == SD_LISTEN_FDS_START + i)),
        i >= names.len() ==> !is_ignored(names, SD_LISTEN_FDS_START + i),
{
    lemma_ignored(names, i);
    if i < names.len() {
        let name = names[i];
        names.index_of_first_ensures(name);
        let first = names.index_of_first(name).unwrap();
        if first < i {
            assert(names.take(i)[first] == name);
        } else if names.take(i).contains(name) {
            let j = choose|j: int| 0 <= j < i && names.take(i)[j] == name;
            assert(names[j] == name);
        }
    }
}

/// No descriptor is found under two names.
pub proof fn law_descriptors_are_not_shared(names: Seq<Seq<char>>, a: Seq<char>, b: Seq<char>)
    requires
        names.len() + SD_LISTEN_FDS_START - 1 <= i32::MAX,
        named_fds(names).dom().contains(a),
        named_fds(names).dom().contains(b),
        named_fds(names)[a] == named_fds(names)[b],
    ensures
        a == b,
{
    names.index_of_first_ensures(a);
    names.index_of_first_ensures(b);
}

/// The names under which nothing is found are the empty one and the three that systemd gives itself.
pub proof fn law_improper_names(name: Seq<char>)
    ensures
        is_special(name) <==> name == "unknown"@ || name == "stored"@ || name == "connection"@,
        is_proper(name) <==> name.len() > 0 && name != "unknown"@ && name != "stored"@ && name
            != "connection"@,
{
}

proof fn lemma_ignored_entries(names: Seq<Seq<char>>)
    requires
        names.len() + SD_LISTEN_FDS_START - 1 <= i32::MAX,
    ensures
        forall|k: int|
            0 <= k < ignored(names).len() ==> {
                let entry = #[trigger] ignored(names)[k];
                let i = entry.fd - 3;
                &&& 0 <= i < names.len()
                &&& entry.name == names[i]
                &&& ignored_cause(names.take(i), names[i]) == Some(entry.cause)
            },
        forall|j: int, k: int|
            0 <= j < k < ignored(names).len() ==> (#[trigger] ignored(names)[j]).fd < (
            #[trigger] ignored(names)[k]).fd,
    decreases names.len(),
{
    if names.len() > 0 {
        let before = names.drop_last();
        lemma_ignored_entries(before);
        assert(before =~= names.take(before.len() as int));
        assert forall|k: int| 0 <= k < ignored(names).len() implies {
            let entry = #[trigger] ignored(names)[k];
            let i = entry.fd - 3;
            &&& 0 <= i < names.len()
            &&& entry.name == names[i]
            &&& ignored_cause(names.take(i), names[i]) == Some(entry.cause)
        } by {
            if k < ignored(before).len() {
                let entry = ignored(before)[k];
                assert(ignored(names)[k] == entry);
                assert(before.take(entry.fd - 3) =~= names.take(entry.fd - 3));
            }
        }
        assert forall|j: int, k: int| 0 <= j < k < ignored(names).len() implies (
        #[trigger] ignored(names)[j]).fd < (#[trigger] ignored(names)[k]).fd by {
            assert(ignored(names)[j] == ignored(before)[j]);
            if k < ignored(before).len() {
                assert(ignored(names)[k] == ignored(before)[k]);
            }
        }
    }
}

/// The sockets are read if and only if the process id can be read, is a number and is the one of this
/// process, and the names can be read. What stands in the way is told, the process first.
pub proof fn law_sockets_are_read_by_their_process(
    listen_pid: Result<String, String>,
    listen_fd_names: Result<String, String>,
    process_id: u32,
    r: Result<SystemdSockets, SystemdSocketsReadError>,
)
    requires
        call_ensures(SystemdSockets::new, (listen_pid, listen_fd_names, process_id), r),
    ensures
        match listen_pid {
            Err(why) => r matches Err(error) && error@ == ReadErrorView::EnvironmentVariableError(
                "env LISTEN_PID missing "@ + why@,
            ),
            Ok(pid) => match text::parsed_i32(pid@) {
                Err(fault) => r matches Err(error) && error@
                    == ReadErrorView::EnvironmentVariableError(
                    "parsing pid from string failed "@ + (match fault {
                        NumberFault::Empty => "ParseIntError { kind: Empty }"@,
                        NumberFault::InvalidDigit => "ParseIntError { kind: InvalidDigit }"@,
                        NumberFault::PosOverflow => "ParseIntError { kind: PosOverflow }"@,
                        NumberFault::NegOverflow => "ParseIntError { kind: NegOverflow }"@,
                    }),
                ),
                Ok(pid) => if pid != process_id as i32 {
                    r matches Err(error) && error@ == ReadErrorView::DoesNotMatchListenPid
                } else {
                    match listen_fd_names {
                        Err(why) => r matches Err(error) && error@
                            == ReadErrorView::EnvironmentVariableError(
                            "env LISTEN_FDNAMES missing "@ + why@,
                        ),
                        Ok(_) => r is Ok,
                    }
                },
            },
        },
{
}

/// What reading gives, for the pieces of the names between colons: as many descriptors were passed as
/// there are pieces. A name is found if and only if it is one of the pieces and is neither empty nor
/// one of systemd's own, and it is found as the descriptor where it stands first, counted from 3.
/// Every other position is ignored, under its name, in the order of the descriptors, and for its
/// reason: that the name is empty, or systemd's own, or stood before.
pub proof fn law_sockets_are_found_where_they_stand(
    listen_pid: Result<String, String>,
    listen_fd_names: String,
    process_id: u32,
    sockets: SystemdSockets,
)
    requires
        text::split_on(listen_fd_names@, ':').len() + 2 <= i32::MAX,
        call_ensures(
            SystemdSockets::new,
            (listen_pid, Ok::<String, String>(listen_fd_names), process_id),
            Ok::<SystemdSockets, SystemdSocketsReadError>(sockets),
        ),
    ensures
        ({
            let names = text::split_on(listen_fd_names@, ':');
            let proper = |name: Seq<char>|
                name.len() > 0 && name != "unknown"@ && name != "stored"@ && name != "connection"@;
            let first = |i: int| forall|j: int| 0 <= j < i ==> #[trigger] names[j] != names[i];
            &&& sockets@.passed == names.len()
            &&& forall|name: Seq<char>| #[trigger]
                sockets@.named.dom().contains(name) ==> names.contains(name) && proper(name)
            &&& forall|i: int|
                0 <= i < names.len() && proper(#[trigger] names[i]) ==> {
                    &&& sockets@.named.dom().contains(names[i])
                    &&& first(i) ==> sockets@.named[names[i]] == 3 + i
                    &&& 3 <= sockets@.named[names[i]] <= 3 + i
                    &&& names[sockets@.named[names[i]] - 3] == names[i]
                }
            &&& forall|k: int|
                0 <= k < sockets@.ignored.len() ==> {
                    let entry = #[trigger] sockets@.ignored[k];
                    let i = entry.fd - 3;
                    &&& 0 <= i < names.len()
                    &&& entry.name == names[i]
                    &&& !(proper(names[i]) && first(i))
                    &&& entry.cause == IgnoredCause::Anonymous <==> names[i].len() == 0
                    &&& entry.cause == IgnoredCause::Special <==> names[i].len() > 0 && !proper(
                        names[i],
                    )
                    &&& entry.cause == IgnoredCause::Duplicate <==> proper(names[i])
                }
            &&& forall|i: int|
                0 <= i < names.len() && !(proper(#[trigger] names[i]) && first(i)) ==> exists|
                    k: int,
                |
                    0 <= k < sockets@.ignored.len() && (#[trigger] sockets@.ignored[k]).fd == 3 + i
            &&& forall|j: int, k: int|
                0 <= j < k < sockets@.ignored.len() ==> (#[trigger] sockets@.ignored[j]).fd < (
                #[trigger] sockets@.ignored[k]).fd
        }),
{
    let names = text::split_on(listen_fd_names@, ':');
    assert(sockets@.named == named_fds(names));
    assert(sockets@.ignored == ignored(names));
    let proper = |name: Seq<char>|
        name.len() > 0 && name != "unknown"@ && name != "stored"@ && name != "connection"@;
    let first = |i: int| forall|j: int| 0 <= j < i ==> #[trigger] names[j] != names[i];
    assert forall|i: int| 0 <= i < names.len() && proper(#[trigger] names[i]) implies {
        &&& sockets@.named.dom().contains(names[i])
        &&& first(i) ==> sockets@.named[names[i]] == 3 + i
        &&& 3 <= sockets@.named[names[i]] <= 3 + i
        &&& names[sockets@.named[names[i]] - 3] == names[i]
    } by {
        names.index_of_first_ensures(names[i]);
    }
    lemma_ignored_entries(names);
    assert forall|i: int| 0 <= i < names.len() implies (names.take(i).contains(#[trigger] names[i])
        <==> !first(i)) by {
        if names.take(i).contains(names[i]) {
            let j = choose|j: int| 0 <= j < i && names.take(i)[j] == names[i];
            assert(names[j] == names[i]);
        }
        if !first(i) {
            let j = choose|j: int| 0 <= j < i && #[trigger] names[j] == names[i];
            assert(names.take(i)[j] == names[i]);
        }
    }
    assert forall|i: int|
        0 <= i < names.len() && !(proper(#[trigger] names[i]) && first(i)) implies exists|k: int|
        0 <= k < sockets@.ignored.len() && (#[trigger] sockets@.ignored[k]).fd == 3 + i by {
        lemma_ignored(names, i);
        assert(is_ignored(names, SD_LISTEN_FDS_START + i));
    }
}

/// A lookup gives the descriptor of the name if there is one, and otherwise says, with the name
/// quoted, that there is none.
pub proof fn law_lookups_are_answered(
    sockets: SystemdSockets,
    name: String,
    r: Result<i32, SystemdSocketError>,
    quoted_name: &str,
    message: String,
)
    requires
        call_ensures(SystemdSockets::find, (&sockets, name), r),
        call_ensures(not_found_message, (quoted_name,), message),
    ensures
        sockets@.named.dom().contains(name@) ==> r == Ok::<i32, SystemdSocketError>(
            sockets@.named[name@],
        ),
        !sockets@.named.dom().contains(name@) ==> (r matches Err(
            SystemdSocketError::SocketNotFoundInParent(said),
        ) && said@ == "fd "@ + quoted(name@) + " not found LISTEN_FDNAMES"@),
        message@ == "fd "@ + quoted_name@ + " not found LISTEN_FDNAMES"@,
{
}

/// All descriptors that were passed are given, counted from 3, and all that are ignored; of those it
/// is said which name and which descriptor it is, and that it stood before or is not supported.
pub proof fn law_descriptors_are_listed(
    sockets: SystemdSockets,
    passed: Vec<i32>,
    listed: &Vec<IgnoredFd>,
    entry: IgnoredFd,
    line: String,
)
    requires
        call_ensures(SystemdSockets::passed_fds, (&sockets,), passed),
        call_ensures(SystemdSockets::ignored_fds, (&sockets,), listed),
        call_ensures(IgnoredFd::describe, (&entry,), line),
        sockets@.passed + 2 <= i32::MAX,
    ensures
        passed@.len() == sockets@.passed,
        forall|i: int| 0 <= i < passed@.len() ==> #[trigger] passed@[i] == 3 + i,
        listed@.len() == sockets@.ignored.len(),
        forall|k: int|
            0 <= k < listed@.len() ==> {
                &&& (#[trigger] listed@[k]).name@ == sockets@.ignored[k].name
                &&& listed@[k].fd == sockets@.ignored[k].fd
                &&& listed@[k].cause == sockets@.ignored[k].cause
            },
        entry.cause == IgnoredCause::Duplicate ==> line@ == "duplicate FDNAME \""@ + entry.name@
            + "\", fd "@ + text::signed_decimal(entry.fd as int) + " ignored"@,
        entry.cause != IgnoredCause::Duplicate ==> line@ == "socket name not supported. FDNAME \""@
            + entry.name@ + "\", fd "@ + text::signed_decimal(entry.fd as int) + " ignored"@,
{
    assert forall|k: int| 0 <= k < listed@.len() implies {
        &&& (#[trigger] listed@[k]).name@ == sockets@.ignored[k].name
        &&& listed@[k].fd == sockets@.ignored[k].fd
        &&& listed@[k].cause == sockets@.ignored[k].cause
    } by {
        assert(ignored_views(listed@)[k] == listed@[k]@);
    }
}

/// An I/O error is kept as it is.
pub proof fn law_socket_errors_are_made_of_others(cause: std::io::Error, error: SystemdSocketError)
    requires
        call_ensures(<SystemdSocketError as From<std::io::Error>>::from, (cause,), error),
    ensures
        error == SystemdSocketError::IoError(cause),
{
}

} // verus!
