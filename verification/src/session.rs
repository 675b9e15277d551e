//! The session guard: no subcommand runs before the identity service has
//! confirmed the session token.
//!
//! A session starts unvalidated. If the token is confirmed, the session is
//! valid and exactly one handler runs, the one of the selected subcommand.
//! If it is not, the session is rejected: the error is printed and the
//! process exits with code 1.

use crate::command::{Commands, Handler};
use crate::output::{
    greeting_line, lemma_fixed_lines_are_paintable, line_paintable, plain_line,
    service_config_hint_line, token_rejection_line, Line,
};
use crate::portal_installer::{
    install_or_update_portal, install_run, install_start, install_step,
    lemma_unreadable_config_ends_run, PortalInstall, PortalInstallView,
};
use crate::protocol::{
    exit_with_line, run, Call, CallView, Ending, EndingView, Fault, Reply, ReplyView, RunView,
    Step, StepView, EXIT_FAILURE, EXIT_SUCCESS,
};
use vstd::prelude::*;

verus! {

/// Where a session stands, as long as the process has not ended.
pub enum Session {
    /// The token's validation has been asked for; the subcommand waits.
    Unvalidated(Commands),
    /// The token is valid and the portal installer is at work.
    Installing(PortalInstall),
}

/// The mathematical value of a [`Session`].
pub enum SessionView {
    Unvalidated(Commands),
    Installing(PortalInstallView),
}

impl View for Session {
    type V = SessionView;

    open spec fn view(&self) -> SessionView {
        match self {
            Session::Unvalidated(command) => SessionView::Unvalidated(*command),
            Session::Installing(installer) => SessionView::Installing(installer@),
        }
    }
}

/// A move of the portal installer, seen as a move of the session it runs in.
pub open spec fn in_session(step: StepView<PortalInstallView>) -> StepView<SessionView> {
    match step {
        StepView::Ask(installer, call) => StepView::Ask(SessionView::Installing(installer), call),
        StepView::End(ending) => StepView::End(ending),
    }
}

/// A session's first move: it asks for the token's validation.
pub open spec fn session_start(command: Commands) -> StepView<SessionView> {
    StepView::Ask(SessionView::Unvalidated(command), CallView::ValidateToken)
}

/// What a valid session does for `command`: a placeholder prints its
/// greeting and exits with code 0, a subcommand without implementation
/// aborts, and the portal installer starts.
pub open spec fn dispatch(command: Commands) -> StepView<SessionView> {
    match command.spec_handler() {
        Handler::Placeholder => StepView::End(exit_with_line(greeting_line(), EXIT_SUCCESS)),
        Handler::NotImplemented => StepView::End(EndingView::Abort(Fault::NotImplemented)),
        Handler::PortalInstaller => in_session(install_start()),
    }
}

/// A session's move on a reply.
///
/// * Unvalidated, on a confirmed token: the subcommand is dispatched.
/// * Unvalidated, on a token that was not confirmed: the error is printed
///   and the process exits with code 1.
/// * While the portal installer is at work, the move is the installer's.
/// * A reply that the state does not wait for aborts the run.
pub open spec fn session_step(state: SessionView, reply: ReplyView) -> StepView<SessionView> {
    match state {
        SessionView::Unvalidated(command) => match reply {
            ReplyView::TokenValidated => dispatch(command),
            ReplyView::TokenRejected(detail) => StepView::End(
                exit_with_line(token_rejection_line(detail), EXIT_FAILURE),
            ),
            _ => StepView::End(EndingView::Abort(Fault::UnexpectedReply)),
        },
        SessionView::Installing(installer) => in_session(install_step(installer, reply)),
    }
}

impl Session {
    /// Starts a session for `command`: the token is to be validated first.
    pub fn start(command: Commands) -> (step: Step<Session>)
        ensures
            step@ == session_start(command),
    {
        Step::Ask(Session::Unvalidated(command), Call::ValidateToken)
    }
}

/// Lifts a move of the portal installer to a move of the session.
fn lift(step: Step<PortalInstall>) -> (lifted: Step<Session>)
    ensures
        lifted@ == in_session(step@),
{
    match step {
        Step::Ask(installer, call) => Step::Ask(Session::Installing(installer), call),
        Step::End(ending) => Step::End(ending),
    }
}

/// Takes the session one move further: from the state it is in and the
/// reply to its pending call, to the next state and call, or to the end of
/// the process.
pub fn check_session_gurad(state: Session, reply: Reply) -> (step: Step<Session>)
    ensures
        step@ == session_step(state@, reply@),
{
    match state {
        Session::Unvalidated(command) => match reply {
            Reply::TokenValidated => match command.handler() {
                Handler::Placeholder => {
                    Step::End(Ending::one_line(Line::greeting(), EXIT_SUCCESS))
                },
                Handler::NotImplemented => Step::End(Ending::Abort(Fault::NotImplemented)),
                Handler::PortalInstaller => lift(PortalInstall::start()),
            },
            Reply::TokenRejected(detail) => {
                Step::End(Ending::one_line(Line::token_rejection(detail.as_str()), EXIT_FAILURE))
            },
            _ => Step::End(Ending::Abort(Fault::UnexpectedReply)),
        },
        Session::Installing(installer) => lift(install_or_update_portal(installer, reply)),
    }
}

/// A session's run for `command` from its start, on the given replies.
pub open spec fn session_run(command: Commands, replies: Seq<ReplyView>) -> RunView {
    run(
        |state: SessionView, reply: ReplyView| session_step(state, reply),
        session_start(command),
        replies,
    )
}

/// Where the token is not confirmed, the process exits with code 1 after the
/// line that reports the error. No handler runs, whichever subcommand was
/// selected: nothing else is printed, and the validation is the one call
/// that was made.
pub proof fn lemma_rejected_token_ends_run(
    command: Commands,
    detail: Seq<char>,
    later: Seq<ReplyView>,
)
    ensures
        session_run(command, seq![ReplyView::TokenRejected(detail)] + later) == (RunView {
            calls: seq![CallView::ValidateToken],
            ending: Some(exit_with_line(token_rejection_line(detail), 1)),
        }),
{
    let replies = seq![ReplyView::TokenRejected(detail)] + later;
    assert(replies.first() == ReplyView::TokenRejected(detail));
    reveal_with_fuel(run, 2);
    assert(session_run(command, replies).calls =~= seq![CallView::ValidateToken]);
}

/// In a valid session a placeholder subcommand prints its greeting and the
/// process exits with code 0; a subcommand without implementation aborts the
/// process and says so. Neither has anything called after the validation.
pub proof fn lemma_unimplemented_commands_call_nothing(command: Commands, later: Seq<ReplyView>)
    requires
        command != Commands::InstallOrUpdatePortal,
    ensures
        session_run(command, seq![ReplyView::TokenValidated] + later).calls == seq![
            CallView::ValidateToken,
        ],
        session_run(command, seq![ReplyView::TokenValidated] + later).ending == Some(
            if command == Commands::Build || command == Commands::BuildCli || command
                == Commands::UploadCli {
                EndingView::Abort(Fault::NotImplemented)
            } else {
                exit_with_line(greeting_line(), 0)
            },
        ),
{
    let replies = seq![ReplyView::TokenValidated] + later;
    assert(replies.first() == ReplyView::TokenValidated);
    reveal_with_fuel(run, 2);
    assert(session_run(command, replies).calls =~= seq![CallView::ValidateToken]);
}

/// Run inside a session, the portal installer makes the calls and reaches
/// the ending that it makes and reaches on its own.
proof fn lemma_installer_runs_unchanged_in_session(
    step: StepView<PortalInstallView>,
    replies: Seq<ReplyView>,
)
    ensures
        run(
            |state: SessionView, reply: ReplyView| session_step(state, reply),
            in_session(step),
            replies,
        ) == run(
            |state: PortalInstallView, reply: ReplyView| install_step(state, reply),
            step,
            replies,
        ),
    decreases replies.len(),
{
    if let StepView::Ask(installer, call) = step {
        if replies.len() > 0 {
            lemma_installer_runs_unchanged_in_session(
                install_step(installer, replies.first()),
                replies.drop_first(),
            );
        }
    }
}

/// With a confirmed token, the portal-installation subcommand has the
/// installer run from its start: the session's calls are the validation
/// followed by the installer's calls, and it ends as the installer ends.
pub proof fn lemma_valid_session_runs_installer(replies: Seq<ReplyView>)
    ensures
        session_run(Commands::InstallOrUpdatePortal, seq![ReplyView::TokenValidated] + replies)
            == (RunView {
            calls: seq![CallView::ValidateToken] + install_run(replies).calls,
            ending: install_run(replies).ending,
        }),
{
    let all = seq![ReplyView::TokenValidated] + replies;
    assert(all.first() == ReplyView::TokenValidated);
    assert(all.drop_first() =~= replies);
    lemma_installer_runs_unchanged_in_session(install_start(), replies);
}

/// Where the portal-installation subcommand finds no readable service
/// configuration, the process exits with code 1 after the error and the
/// hint; after the token's validation no remote service was called.
pub proof fn lemma_unreadable_config_ends_session(detail: Seq<char>, later: Seq<ReplyView>)
    ensures
        session_run(
            Commands::InstallOrUpdatePortal,
            seq![ReplyView::TokenValidated, ReplyView::ServiceConfigUnreadable(detail)] + later,
        ) == (RunView {
            calls: seq![CallView::ValidateToken, CallView::ReadServiceConfig],
            ending: Some(
                EndingView::Exit {
                    output: seq![plain_line(detail), service_config_hint_line()],
                    code: 1,
                },
            ),
        }),
{
    let rest = seq![ReplyView::ServiceConfigUnreadable(detail)] + later;
    assert(seq![ReplyView::TokenValidated] + rest =~= seq![
        ReplyView::TokenValidated,
        ReplyView::ServiceConfigUnreadable(detail),
    ] + later);
    lemma_valid_session_runs_installer(rest);
    lemma_unreadable_config_ends_run(detail, later);
    assert(seq![CallView::ValidateToken] + seq![CallView::ReadServiceConfig] =~= seq![
        CallView::ValidateToken,
        CallView::ReadServiceConfig,
    ]);
}

/// Nothing but the validation is ever called in a session whose token has
/// not been confirmed: a run with a second call is a run of the
/// portal-installation subcommand whose first reply confirmed the token.
pub proof fn lemma_no_call_before_validation(command: Commands, replies: Seq<ReplyView>)
    ensures
        session_run(command, replies).calls.len() >= 1,
        session_run(command, replies).calls[0] == CallView::ValidateToken,
        session_run(command, replies).calls.len() >= 2 ==> {
            &&& command == Commands::InstallOrUpdatePortal
            &&& replies.len() >= 1
            &&& replies[0] == ReplyView::TokenValidated
        },
{
    reveal_with_fuel(run, 2);
}

/// The exit code of a session that ends with one is 1 after a token that
/// was not confirmed, after an unreadable service configuration and after a
/// missing package descriptor, and 0 in every other case, a failed request
/// among them.
pub proof fn lemma_exit_code_by_reply(state: SessionView, reply: ReplyView)
    ensures
        session_step(state, reply) matches StepView::End(EndingView::Exit { code, .. }) ==> code
            == (if reply is TokenRejected || reply is ServiceConfigUnreadable || reply
            is PackageUnavailable {
            1i32
        } else {
            0i32
        }),
{
}

/// Every line that a session has printed can be painted: the texts that
/// come from outside are printed in the terminal's own colour, and the
/// coloured texts are the tool's own.
pub proof fn lemma_session_output_is_paintable(state: SessionView, reply: ReplyView)
    ensures
        session_step(state, reply) matches StepView::End(EndingView::Exit { output, .. })
            ==> forall|i: int| 0 <= i < output.len() ==> line_paintable(#[trigger] output[i]),
{
    lemma_fixed_lines_are_paintable();
}

} // verus!
