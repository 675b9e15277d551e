//! The vocabulary between the decision logic and the program that drives it.
//!
//! The logic never touches the network, the disk or the terminal. It asks
//! the driver for one piece of outside work at a time (a [`Call`]), is handed
//! what came back (a [`Reply`]), and in the end says how the process is to
//! finish (an [`Ending`]).

use crate::config::{PackageDescriptor, PackageDescriptorView, ServiceConfig, ServiceConfigView};
use crate::output::{Line, SegmentView};
use crate::request::{CreateOrUpdateAppRequest, CreateOrUpdateAppRequestView};
use vstd::prelude::*;

verus! {

/// The exit code of a run that went through.
pub const EXIT_SUCCESS: i32 = 0;

/// The exit code of a run that was given up.
pub const EXIT_FAILURE: i32 = 1;

/// Outside work that the driver is asked to do.
#[derive(Debug)]
pub enum Call {
    /// Ask the identity service whether the session token is valid.
    ValidateToken,
    /// Read and parse the service-configuration file.
    ReadServiceConfig,
    /// Read and parse the package-descriptor file.
    ReadPackageDescriptor,
    /// Send the request to the identity service's "create or update
    /// application" operation.
    CreateOrUpdateApp(CreateOrUpdateAppRequest),
}

/// The mathematical value of a [`Call`].
pub enum CallView {
    ValidateToken,
    ReadServiceConfig,
    ReadPackageDescriptor,
    CreateOrUpdateApp(CreateOrUpdateAppRequestView),
}

impl View for Call {
    type V = CallView;

    open spec fn view(&self) -> CallView {
        match self {
            Call::ValidateToken => CallView::ValidateToken,
            Call::ReadServiceConfig => CallView::ReadServiceConfig,
            Call::ReadPackageDescriptor => CallView::ReadPackageDescriptor,
            Call::CreateOrUpdateApp(request) => CallView::CreateOrUpdateApp(request@),
        }
    }
}

impl CallView {
    /// Whether the call goes out to a remote service.
    pub open spec fn is_remote(self) -> bool {
        self is ValidateToken || self is CreateOrUpdateApp
    }
}

/// What came back from outside work.
pub enum Reply {
    /// The identity service confirmed the token.
    TokenValidated,
    /// The token was not confirmed, be it that the service refused it or
    /// that the service could not be reached; with the error's text.
    TokenRejected(String),
    /// The service-configuration file was read and parsed.
    ServiceConfigLoaded(ServiceConfig),
    /// The service-configuration file is missing or does not parse; with the
    /// error's text.
    ServiceConfigUnreadable(String),
    /// The package-descriptor file was read and parsed.
    PackageLoaded(PackageDescriptor),
    /// The package-descriptor file is missing or lacks what is needed.
    PackageUnavailable,
    /// The identity service answered the request with an application record;
    /// with the record's text.
    UpsertSucceeded(String),
    /// The request failed; with the error's text.
    UpsertFailed(String),
}

/// The mathematical value of a [`Reply`].
pub enum ReplyView {
    TokenValidated,
    TokenRejected(Seq<char>),
    ServiceConfigLoaded(ServiceConfigView),
    ServiceConfigUnreadable(Seq<char>),
    PackageLoaded(PackageDescriptorView),
    PackageUnavailable,
    UpsertSucceeded(Seq<char>),
    UpsertFailed(Seq<char>),
}

impl View for Reply {
    type V = ReplyView;

    open spec fn view(&self) -> ReplyView {
        match self {
            Reply::TokenValidated => ReplyView::TokenValidated,
            Reply::TokenRejected(detail) => ReplyView::TokenRejected(detail@),
            Reply::ServiceConfigLoaded(config) => ReplyView::ServiceConfigLoaded(config@),
            Reply::ServiceConfigUnreadable(detail) => ReplyView::ServiceConfigUnreadable(detail@),
            Reply::PackageLoaded(package) => ReplyView::PackageLoaded(package@),
            Reply::PackageUnavailable => ReplyView::PackageUnavailable,
            Reply::UpsertSucceeded(text) => ReplyView::UpsertSucceeded(text@),
            Reply::UpsertFailed(text) => ReplyView::UpsertFailed(text@),
        }
    }
}

/// Why a run is aborted instead of ending with an exit code.
#[derive(Clone, Copy, Debug, PartialEq, Eq, Structural)]
pub enum Fault {
    /// The subcommand has no implementation.
    NotImplemented,
    /// The service configuration lacks a field that the request cannot do
    /// without: the portal configuration, or in it the identifier of the
    /// access group.
    MissingRequiredField,
    /// The driver handed in a reply to a call that was not pending.
    UnexpectedReply,
}

/// How the process is to finish.
#[derive(Debug)]
pub enum Ending {
    /// Print the lines in order, then exit with the code.
    Exit { output: Vec<Line>, code: i32 },
    /// Abort abnormally, without an exit code of the tool's choosing.
    Abort(Fault),
}

/// The mathematical value of an [`Ending`].
pub enum EndingView {
    Exit { output: Seq<Seq<SegmentView>>, code: i32 },
    Abort(Fault),
}

impl View for Ending {
    type V = EndingView;

    open spec fn view(&self) -> EndingView {
        match self {
            Ending::Exit { output, code } => EndingView::Exit {
                output: output.deep_view(),
                code: *code,
            },
            Ending::Abort(fault) => EndingView::Abort(*fault),
        }
    }
}

/// One move of a state machine with states of type `S`: either it goes on,
/// in a new state and with a call for the driver to make, or it is over.
pub enum Step<S> {
    Ask(S, Call),
    End(Ending),
}

/// The mathematical value of a [`Step`].
pub enum StepView<S> {
    Ask(S, CallView),
    End(EndingView),
}

impl<S: View> View for Step<S> {
    type V = StepView<S::V>;

    open spec fn view(&self) -> StepView<S::V> {
        match self {
            Step::Ask(state, call) => StepView::Ask(state@, call@),
            Step::End(ending) => StepView::End(ending@),
        }
    }
}

/// What a driver sees of a run: the calls it was asked to make, in order,
/// and how the run ended, if it has ended.
pub struct RunView {
    pub calls: Seq<CallView>,
    pub ending: Option<EndingView>,
}

impl RunView {
    /// Whether the run went without a call to a remote service.
    pub open spec fn stays_local(self) -> bool {
        forall|i: int| 0 <= i < self.calls.len() ==> !(#[trigger] self.calls[i]).is_remote()
    }
}

/// The run of a state machine with the move function `next`, taken up at
/// `step`, while the outside world answers the calls with `replies` in
/// order. Each call is answered by the next reply; once the machine has
/// ended, replies that are left over are ignored; a machine whose call has
/// no reply yet has not ended.
pub open spec fn run<S>(
    next: spec_fn(S, ReplyView) -> StepView<S>,
    step: StepView<S>,
    replies: Seq<ReplyView>,
) -> RunView
    decreases replies.len(),
{
    match step {
        StepView::End(ending) => RunView { calls: Seq::empty(), ending: Some(ending) },
        StepView::Ask(state, call) => {
            if replies.len() == 0 {
                RunView { calls: seq![call], ending: None }
            } else {
                let rest = run(next, next(state, replies.first()), replies.drop_first());
                RunView { calls: seq![call] + rest.calls, ending: rest.ending }
            }
        },
    }
}

/// An ending that prints one line and exits with `code`.
pub open spec fn exit_with_line(line: Seq<SegmentView>, code: i32) -> EndingView {
    EndingView::Exit { output: seq![line], code }
}

impl Ending {
    /// An ending that prints `line` and exits with `code`.
    pub(crate) fn one_line(line: Line, code: i32) -> (ending: Ending)
        ensures
            ending@ == exit_with_line(line@, code),
    {
        let mut output: Vec<Line> = Vec::new();
        output.push(line);
        let ending = Ending::Exit { output, code };
        assert(ending@->output =~= seq![line@]);
        ending
    }

    /// An ending that prints `first`, then `second`, and exits with `code`.
    pub(crate) fn two_lines(first: Line, second: Line, code: i32) -> (ending: Ending)
        ensures
            ending@ == (EndingView::Exit { output: seq![first@, second@], code }),
    {
        let mut output: Vec<Line> = Vec::new();
        output.push(first);
        output.push(second);
        let ending = Ending::Exit { output, code };
        assert(ending@->output =~= seq![first@, second@]);
        ending
    }
}

} // verus!
