use vstd::prelude::*;

use crate::target::{download_url, url_of};

verus! {

/// How long the request for the package may take, in seconds.
pub const REQUEST_TIMEOUT_SECS: u64 = 300;

/// Which kind of step failed.
#[derive(Clone, Copy, Debug, PartialEq, Eq)]
pub enum FailureKind {
    /// Creating the install directory, or writing the downloaded archive to
    /// its temporary file.
    Filesystem,
    /// The request: a timeout, a name that does not resolve, a status other
    /// than success, a broken connection.
    Network,
    /// Opening the archive as gzip, or unpacking one of its entries.
    Archive,
}

/// Why the installation failed.
#[derive(Debug, PartialEq, Eq)]
pub struct FetchError {
    pub kind: FailureKind,
    /// What the failing step reported.
    pub cause: String,
}

/// Where an installation stands.
#[derive(Debug, PartialEq, Eq)]
pub enum Phase {
    /// Bundling is switched off: nothing is fetched.
    Disabled,
    /// The install directory already existed: it is taken as installed.
    Present,
    /// The install directory tree is being created.
    CreatingDir,
    /// The package is being requested.
    Requesting,
    /// A temporary file is being created and the response body written to it.
    Staging,
    /// The temporary file is being unpacked into the install directory.
    Unpacking,
    /// The temporary file is being removed; `failure` is why the installation
    /// failed, if it did.
    Discarding { failure: Option<FetchError> },
    /// The package was unpacked into the install directory.
    Installed,
    /// A step failed: the build is to stop with `error`.
    Failed { error: FetchError },
}

/// How the step that was last asked for went.
#[derive(Debug, PartialEq, Eq)]
pub enum Event {
    Done,
    Failed { cause: String },
}

/// What the caller is asked to do next.
#[derive(Debug, PartialEq, Eq)]
pub enum Action {
    /// Nothing is left to do, and nothing failed.
    Finish,
    /// Create the install directory and its parents.
    CreateDir,
    /// Send a GET request for `url`, giving up after `timeout_secs` seconds.
    Request { url: String, timeout_secs: u64 },
    /// Create a temporary file and write the whole response body to it.
    Stage,
    /// Open the temporary file as a gzip-compressed tar archive and unpack
    /// every entry into the install directory, keeping the archive's paths.
    Unpack,
    /// Remove the temporary file.
    Discard,
    /// Stop the build with `error`.
    Abort { error: FetchError },
}

/// The decisions of one installation: which step comes next, given how the
/// previous one went.
pub struct Fetcher {
    /// The URL of the package.
    pub url: String,
    pub phase: Phase,
}

/// The phase an installation starts in.
pub open spec fn start_phase(bundled: bool, install_exists: bool) -> Phase {
    if !bundled {
        Phase::Disabled
    } else if install_exists {
        Phase::Present
    } else {
        Phase::CreatingDir
    }
}

/// The phase that follows `phase` when its step went as `event` says. The
/// outcome of removing the temporary file does not change the result, and a
/// phase that ends the installation stays as it is.
pub open spec fn next_phase(phase: Phase, event: Event) -> Phase {
    match phase {
        Phase::CreatingDir => match event {
            Event::Done => Phase::Requesting,
            Event::Failed { cause } => Phase::Failed {
                error: FetchError { kind: FailureKind::Filesystem, cause },
            },
        },
        Phase::Requesting => match event {
            Event::Done => Phase::Staging,
            Event::Failed { cause } => Phase::Failed {
                error: FetchError { kind: FailureKind::Network, cause },
            },
        },
        Phase::Staging => match event {
            Event::Done => Phase::Unpacking,
            Event::Failed { cause } => Phase::Discarding {
                failure: Some(FetchError { kind: FailureKind::Filesystem, cause }),
            },
        },
        Phase::Unpacking => match event {
            Event::Done => Phase::Discarding { failure: None },
            Event::Failed { cause } => Phase::Discarding {
                failure: Some(FetchError { kind: FailureKind::Archive, cause }),
            },
        },
        Phase::Discarding { failure } => match failure {
            None => Phase::Installed,
            Some(error) => Phase::Failed { error },
        },
        other => other,
    }
}

/// Whether `action` is what `phase` asks for, where the package is at `url`.
pub open spec fn asks(phase: Phase, url: Seq<char>, action: Action) -> bool {
    match phase {
        Phase::CreatingDir => action == Action::CreateDir,
        Phase::Requesting => action matches Action::Request { url: u, timeout_secs: t } && u@
            == url && t == REQUEST_TIMEOUT_SECS,
        Phase::Staging => action == Action::Stage,
        Phase::Unpacking => action == Action::Unpack,
        Phase::Discarding { .. } => action == Action::Discard,
        Phase::Failed { error } => action == (Action::Abort { error }),
        _ => action == Action::Finish,
    }
}

impl FetchError {
    /// A copy of this error.
    pub fn copied(&self) -> (r: FetchError)
        ensures
            r == *self,
    {
        FetchError { kind: self.kind, cause: self.cause.clone() }
    }
}

impl Fetcher {
    /// What the current phase asks the caller to do.
    pub fn action(&self) -> (r: Action)
        ensures
            asks(self.phase, self.url@, r),
    {
        match &self.phase {
            Phase::CreatingDir => Action::CreateDir,
            Phase::Requesting => Action::Request {
                url: self.url.clone(),
                timeout_secs: REQUEST_TIMEOUT_SECS,
            },
            Phase::Staging => Action::Stage,
            Phase::Unpacking => Action::Unpack,
            Phase::Discarding { .. } => Action::Discard,
            Phase::Failed { error } => Action::Abort { error: error.copied() },
            _ => Action::Finish,
        }
    }

    /// Takes how the step last asked for went, moves to the next phase and
    /// returns what that phase asks for.
    pub fn step(&mut self, event: Event) -> (r: Action)
        ensures
            final(self).url == old(self).url,
            final(self).phase == next_phase(old(self).phase, event),
            asks(final(self).phase, final(self).url@, r),
    {
        let mut phase = Phase::Installed;
        std::mem::swap(&mut phase, &mut self.phase);
        self.phase = match phase {
            Phase::CreatingDir => match event {
                Event::Done => Phase::Requesting,
                Event::Failed { cause } => Phase::Failed {
                    error: FetchError { kind: FailureKind::Filesystem, cause },
                },
            },
            Phase::Requesting => match event {
                Event::Done => Phase::Staging,
                Event::Failed { cause } => Phase::Failed {
                    error: FetchError { kind: FailureKind::Network, cause },
                },
            },
            Phase::Staging => match event {
                Event::Done => Phase::Unpacking,
                Event::Failed { cause } => Phase::Discarding {
                    failure: Some(FetchError { kind: FailureKind::Filesystem, cause }),
                },
            },
            Phase::Unpacking => match event {
                Event::Done => Phase::Discarding { failure: None },
                Event::Failed { cause } => Phase::Discarding {
                    failure: Some(FetchError { kind: FailureKind::Archive, cause }),
                },
            },
            Phase::Discarding { failure } => match failure {
                None => Phase::Installed,
                Some(error) => Phase::Failed { error },
            },
            other => other,
        };
        self.action()
    }
}

/// Starts installing the package for the target triple `target`. `bundled`
/// says whether bundling is switched on, `install_exists` whether the install
/// directory is already there. Returns the installation and what it asks the
/// caller to do first.
pub fn download_highs(target: &str, bundled: bool, install_exists: bool) -> (r: (Fetcher, Action))
    ensures
        r.0.url@ == url_of(target@),
        r.0.phase == start_phase(bundled, install_exists),
        asks(r.0.phase, r.0.url@, r.1),
{
    let phase = if !bundled {
        Phase::Disabled
    } else if install_exists {
        Phase::Present
    } else {
        Phase::CreatingDir
    };
    let fetcher = Fetcher { url: download_url(target), phase };
    let action = fetcher.action();
    (fetcher, action)
}

/// The phases an installation goes through from `start` when its steps go as
/// `events` say, `start` first.
pub open spec fn phases(start: Phase, events: Seq<Event>) -> Seq<Phase>
    decreases events.len(),
{
    if events.len() == 0 {
        seq![start]
    } else {
        let before = phases(start, events.drop_last());
        before.push(next_phase(before.last(), events.last()))
    }
}

/// Whether the temporary file may exist while in `phase`, not yet handed to
/// removal.
pub open spec fn holds_temp(phase: Phase) -> bool {
    phase is Staging || phase is Unpacking
}

/// Whether `phase` ends the installation.
pub open spec fn is_final(phase: Phase) -> bool {
    phase is Disabled || phase is Present || phase is Installed || phase is Failed
}

/// Whether `phase` asks for work on the network or on the filesystem.
pub open spec fn does_work(phase: Phase) -> bool {
    !is_final(phase)
}

/// One phase per event, besides the first.
pub proof fn lemma_phases_len(start: Phase, events: Seq<Event>)
    ensures
        phases(start, events).len() == events.len() + 1,
        phases(start, events)[0] == start,
    decreases events.len(),
{
    if events.len() > 0 {
        lemma_phases_len(start, events.drop_last());
    }
}

/// With an install directory already there, an installation does nothing on
/// the network or the filesystem, whatever it is told, and ends without an
/// error.
pub proof fn lemma_existing_install_untouched(bundled: bool, events: Seq<Event>)
    ensures
        forall|i: int|
            0 <= i < phases(start_phase(bundled, true), events).len() ==> #[trigger] phases(
                start_phase(bundled, true),
                events,
            )[i] == start_phase(bundled, true),
        !does_work(start_phase(bundled, true)),
        !(start_phase(bundled, true) is Failed),
        forall|url: Seq<char>, a: Action|
            asks(start_phase(bundled, true), url, a) ==> a == Action::Finish,
    decreases events.len(),
{
    lemma_phases_len(start_phase(bundled, true), events);
    if events.len() > 0 {
        lemma_existing_install_untouched(bundled, events.drop_last());
        lemma_phases_len(start_phase(bundled, true), events.drop_last());
    }
}

/// When the request fails, the installation fails with a network error
/// carrying the cause, and never stages or unpacks anything, whatever it is
/// told afterwards.
pub proof fn lemma_failed_request_aborts(cause: String, later: Seq<Event>)
    ensures
        ({
            let events = seq![Event::Done, Event::Failed { cause }] + later;
            let trace = phases(start_phase(true, false), events);
            &&& trace.last() == (Phase::Failed {
                error: FetchError { kind: FailureKind::Network, cause },
            })
            &&& forall|i: int|
                0 <= i < trace.len() ==> !(#[trigger] trace[i] is Staging) && !(trace[i] is Unpacking)
        }),
    decreases later.len(),
{
    let events = seq![Event::Done, Event::Failed { cause }] + later;
    let trace = phases(start_phase(true, false), events);
    let failed = Phase::Failed { error: FetchError { kind: FailureKind::Network, cause } };
    lemma_phases_len(start_phase(true, false), events);
    if later.len() == 0 {
        let first = seq![Event::Done];
        assert(events.drop_last() =~= first);
        assert(first.drop_last() =~= Seq::<Event>::empty());
        assert(phases(start_phase(true, false), first) =~= seq![Phase::CreatingDir, Phase::Requesting]);
        assert(trace =~= seq![Phase::CreatingDir, Phase::Requesting, failed]);
    } else {
        lemma_failed_request_aborts(cause, later.drop_last());
        assert(events.drop_last() =~= seq![Event::Done, Event::Failed { cause }] + later.drop_last());
        let before = phases(start_phase(true, false), events.drop_last());
        lemma_phases_len(start_phase(true, false), events.drop_last());
        assert(trace == before.push(next_phase(before.last(), events.last())));
        assert forall|i: int| 0 <= i < trace.len() implies !(#[trigger] trace[i] is Staging) && !(
        trace[i] is Unpacking) by {
            if i < before.len() {
                assert(trace[i] == before[i]);
            }
        }
    }
}

/// Once the temporary file exists, the installation hands it to removal
/// before it ends, whether it succeeds or fails: from a phase that holds the
/// file, every later phase still holds it or comes after a removal.
pub proof fn lemma_temp_discarded_before_end(start: Phase, events: Seq<Event>)
    ensures
        forall|i: int, j: int|
            0 <= i < j < phases(start, events).len() && holds_temp(
                #[trigger] phases(start, events)[i],
            ) ==> holds_temp(#[trigger] phases(start, events)[j]) || exists|k: int|
                i < k <= j && #[trigger] phases(start, events)[k] is Discarding,
        forall|i: int, j: int|
            0 <= i < j < phases(start, events).len() && holds_temp(
                #[trigger] phases(start, events)[i],
            ) && is_final(#[trigger] phases(start, events)[j]) ==> exists|k: int|
                i < k < j && #[trigger] phases(start, events)[k] is Discarding,
    decreases events.len(),
{
    let trace = phases(start, events);
    lemma_phases_len(start, events);
    if events.len() > 0 {
        let before = phases(start, events.drop_last());
        lemma_temp_discarded_before_end(start, events.drop_last());
        lemma_phases_len(start, events.drop_last());
        let n = before.len();
        assert forall|i: int, j: int|
            0 <= i < j < trace.len() && holds_temp(#[trigger] trace[i]) implies holds_temp(
            #[trigger] trace[j],
        ) || exists|k: int| i < k <= j && #[trigger] trace[k] is Discarding by {
            assert(trace[i] == before[i]);
            if j < n {
                assert(trace[j] == before[j]);
                if !holds_temp(before[j]) {
                    let k = choose|k: int| i < k <= j && #[trigger] before[k] is Discarding;
                    assert(trace[k] == before[k]);
                }
            } else {
                assert(trace[j] == next_phase(before[n - 1], events.last()));
                if i < n - 1 && !holds_temp(before[n - 1]) {
                    let k = choose|k: int| i < k <= n - 1 && #[trigger] before[k] is Discarding;
                    assert(trace[k] == before[k]);
                }
            }
        }
    }
    assert forall|i: int, j: int|
        0 <= i < j < trace.len() && holds_temp(#[trigger] trace[i]) && is_final(
            #[trigger] trace[j],
        ) implies exists|k: int| i < k < j && #[trigger] trace[k] is Discarding by {
        assert(holds_temp(trace[j]) || exists|k: int| i < k <= j && #[trigger] trace[k] is Discarding);
        let k = choose|k: int| i < k <= j && #[trigger] trace[k] is Discarding;
        assert(k != j);
    }
}

} // verus!
