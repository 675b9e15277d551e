//! The portal installer: it brings the local description of a portal into
//! the identity service's application registry.
//!
//! The installer is a state machine. It has the service configuration read,
//! then the package descriptor, builds the request from the two and has it
//! sent; whatever the service answers is printed. A failure to load either
//! file ends the run with exit code 1 before anything is sent.

use crate::config::{PackageDescriptorView, ServiceConfig, ServiceConfigView};
use crate::output::{package_failure_line, plain_line, service_config_hint_line, Line};
use crate::protocol::{
    exit_with_line, run, Call, CallView, Ending, EndingView, Fault, Reply, ReplyView, RunView,
    Step, StepView, EXIT_FAILURE, EXIT_SUCCESS,
};
use crate::request::{upsert_request, CreateOrUpdateAppRequest};
use vstd::prelude::*;

verus! {

/// Where the installer stands: which reply it is waiting for.
pub enum PortalInstall {
    /// The service configuration has been asked for.
    AwaitingServiceConfig,
    /// The service configuration is here; the package descriptor has been
    /// asked for.
    AwaitingPackage(ServiceConfig),
    /// The request has been handed over for sending.
    AwaitingUpsert,
}

/// The mathematical value of a [`PortalInstall`].
pub enum PortalInstallView {
    AwaitingServiceConfig,
    AwaitingPackage(ServiceConfigView),
    AwaitingUpsert,
}

impl View for PortalInstall {
    type V = PortalInstallView;

    open spec fn view(&self) -> PortalInstallView {
        match self {
            PortalInstall::AwaitingServiceConfig => PortalInstallView::AwaitingServiceConfig,
            PortalInstall::AwaitingPackage(config) => PortalInstallView::AwaitingPackage(config@),
            PortalInstall::AwaitingUpsert => PortalInstallView::AwaitingUpsert,
        }
    }
}

/// The installer's first move: it asks for the service configuration.
pub open spec fn install_start() -> StepView<PortalInstallView> {
    StepView::Ask(PortalInstallView::AwaitingServiceConfig, CallView::ReadServiceConfig)
}

/// The installer's move on a reply.
///
/// * An unreadable service configuration ends the run with exit code 1,
///   after the error and a hint on how to create a configuration.
/// * A missing package descriptor ends the run with exit code 1, after one
///   line that says so.
/// * With both at hand the request is built and handed over for sending,
///   unless the service configuration lacks a required field: then the run
///   is aborted.
/// * Whatever the identity service answers is printed, and the run ends
///   with exit code 0, also where the answer is an error.
/// * A reply that the state does not wait for aborts the run.
pub open spec fn install_step(state: PortalInstallView, reply: ReplyView) -> StepView<
    PortalInstallView,
> {
    match (state, reply) {
        (PortalInstallView::AwaitingServiceConfig, ReplyView::ServiceConfigLoaded(config)) => {
            StepView::Ask(PortalInstallView::AwaitingPackage(config), CallView::ReadPackageDescriptor)
        },
        (PortalInstallView::AwaitingServiceConfig, ReplyView::ServiceConfigUnreadable(detail)) => {
            StepView::End(
                EndingView::Exit {
                    output: seq![plain_line(detail), service_config_hint_line()],
                    code: EXIT_FAILURE,
                },
            )
        },
        (PortalInstallView::AwaitingPackage(config), ReplyView::PackageLoaded(package)) => {
            if config.has_required_fields() {
                StepView::Ask(
                    PortalInstallView::AwaitingUpsert,
                    CallView::CreateOrUpdateApp(upsert_request(config, package)),
                )
            } else {
                StepView::End(EndingView::Abort(Fault::MissingRequiredField))
            }
        },
        (PortalInstallView::AwaitingPackage(_), ReplyView::PackageUnavailable) => {
            StepView::End(exit_with_line(package_failure_line(), EXIT_FAILURE))
        },
        (PortalInstallView::AwaitingUpsert, ReplyView::UpsertSucceeded(text)) => {
            StepView::End(exit_with_line(plain_line(text), EXIT_SUCCESS))
        },
        (PortalInstallView::AwaitingUpsert, ReplyView::UpsertFailed(text)) => {
            StepView::End(exit_with_line(plain_line(text), EXIT_SUCCESS))
        },
        _ => StepView::End(EndingView::Abort(Fault::UnexpectedReply)),
    }
}

impl PortalInstall {
    /// Starts the installer: the service configuration is to be read.
    pub fn start() -> (step: Step<PortalInstall>)
        ensures
            step@ == install_start(),
    {
        Step::Ask(PortalInstall::AwaitingServiceConfig, Call::ReadServiceConfig)
    }
}

/// Takes the installer one move further: from the state it is in and the
/// reply to its pending call, to the next state and call, or to the end of
/// the run.
pub fn install_or_update_portal(state: PortalInstall, reply: Reply) -> (step: Step<PortalInstall>)
    ensures
        step@ == install_step(state@, reply@),
{
    match state {
        PortalInstall::AwaitingServiceConfig => match reply {
            Reply::ServiceConfigLoaded(config) => {
                Step::Ask(PortalInstall::AwaitingPackage(config), Call::ReadPackageDescriptor)
            },
            Reply::ServiceConfigUnreadable(detail) => {
                Step::End(
                    Ending::two_lines(
                        Line::plain(detail),
                        Line::service_config_hint(),
                        EXIT_FAILURE,
                    ),
                )
            },
            _ => Step::End(Ending::Abort(Fault::UnexpectedReply)),
        },
        PortalInstall::AwaitingPackage(config) => match reply {
            Reply::PackageLoaded(package) => {
                if config.has_required_fields() {
                    Step::Ask(
                        PortalInstall::AwaitingUpsert,
                        Call::CreateOrUpdateApp(CreateOrUpdateAppRequest::build(config, package)),
                    )
                } else {
                    Step::End(Ending::Abort(Fault::MissingRequiredField))
                }
            },
            Reply::PackageUnavailable => {
                Step::End(Ending::one_line(Line::package_failure(), EXIT_FAILURE))
            },
            _ => Step::End(Ending::Abort(Fault::UnexpectedReply)),
        },
        PortalInstall::AwaitingUpsert => match reply {
            Reply::UpsertSucceeded(text) => {
                Step::End(Ending::one_line(Line::plain(text), EXIT_SUCCESS))
            },
            Reply::UpsertFailed(text) => {
                Step::End(Ending::one_line(Line::plain(text), EXIT_SUCCESS))
            },
            _ => Step::End(Ending::Abort(Fault::UnexpectedReply)),
        },
    }
}

/// The installer's run from its start, on the given replies.
pub open spec fn install_run(replies: Seq<ReplyView>) -> RunView {
    run(
        |state: PortalInstallView, reply: ReplyView| install_step(state, reply),
        install_start(),
        replies,
    )
}

/// Where the service configuration cannot be read, the installer's run ends
/// with exit code 1, after the error and the hint, whatever else might have
/// been answered later. The one call it made was for the local file: no
/// remote service was called.
pub proof fn lemma_unreadable_config_ends_run(detail: Seq<char>, later: Seq<ReplyView>)
    ensures
        install_run(seq![ReplyView::ServiceConfigUnreadable(detail)] + later) == (RunView {
            calls: seq![CallView::ReadServiceConfig],
            ending: Some(
                EndingView::Exit {
                    output: seq![plain_line(detail), service_config_hint_line()],
                    code: 1,
                },
            ),
        }),
        install_run(seq![ReplyView::ServiceConfigUnreadable(detail)] + later).stays_local(),
{
    let replies = seq![ReplyView::ServiceConfigUnreadable(detail)] + later;
    assert(replies.first() == ReplyView::ServiceConfigUnreadable(detail));
    reveal_with_fuel(run, 2);
    assert(install_run(replies).calls =~= seq![CallView::ReadServiceConfig]);
}

/// Where the package descriptor cannot be had, the installer's run ends with
/// exit code 1 after one line that says so, and no remote service was
/// called.
pub proof fn lemma_missing_package_ends_run(config: ServiceConfigView, later: Seq<ReplyView>)
    ensures
        install_run(
            seq![ReplyView::ServiceConfigLoaded(config), ReplyView::PackageUnavailable] + later,
        ) == (RunView {
            calls: seq![CallView::ReadServiceConfig, CallView::ReadPackageDescriptor],
            ending: Some(exit_with_line(package_failure_line(), 1)),
        }),
        install_run(
            seq![ReplyView::ServiceConfigLoaded(config), ReplyView::PackageUnavailable] + later,
        ).stays_local(),
{
    let replies = seq![ReplyView::ServiceConfigLoaded(config), ReplyView::PackageUnavailable]
        + later;
    assert(replies.first() == ReplyView::ServiceConfigLoaded(config));
    assert(replies.drop_first().first() == ReplyView::PackageUnavailable);
    reveal_with_fuel(run, 3);
    assert(install_run(replies).calls =~= seq![
        CallView::ReadServiceConfig,
        CallView::ReadPackageDescriptor,
    ]);
}

/// A service configuration without environment URLs does not stop the
/// installer: the request is handed over for sending, with its three
/// application URLs null.
pub proof fn lemma_missing_urls_do_not_stop_installer(
    config: ServiceConfigView,
    package: PackageDescriptorView,
)
    requires
        config.has_required_fields(),
        config.urls is None,
    ensures
        install_step(PortalInstallView::AwaitingPackage(config), ReplyView::PackageLoaded(package))
            matches StepView::Ask(PortalInstallView::AwaitingUpsert, CallView::CreateOrUpdateApp(request))
            && request.app_url_dev == Some(None::<Seq<char>>)
            && request.app_url_stage == Some(None::<Seq<char>>)
            && request.app_url_prod == Some(None::<Seq<char>>),
{
}

/// Whatever is answered, the installer asks for the service configuration
/// first, then for the package descriptor, then has a single request sent,
/// and asks for nothing after that.
pub proof fn lemma_installer_calls_in_order(replies: Seq<ReplyView>)
    ensures
        1 <= install_run(replies).calls.len() <= 3,
        install_run(replies).calls[0] == CallView::ReadServiceConfig,
        install_run(replies).calls.len() >= 2 ==> install_run(replies).calls[1]
            == CallView::ReadPackageDescriptor,
        install_run(replies).calls.len() == 3 ==> install_run(replies).calls[2]
            is CreateOrUpdateApp,
{
    reveal_with_fuel(run, 4);
}

/// The request is sent if and only if the service configuration was read,
/// it holds its required fields, and the package descriptor was read; it is
/// then the projection of the two.
pub proof fn lemma_request_sent_iff_both_loaded(replies: Seq<ReplyView>)
    ensures
        install_run(replies).calls.len() == 3 <==> {
            &&& replies.len() >= 2
            &&& replies[0] matches ReplyView::ServiceConfigLoaded(config)
            &&& config.has_required_fields()
            &&& replies[1] is PackageLoaded
        },
        install_run(replies).calls.len() == 3 ==> install_run(replies).calls[2]
            == CallView::CreateOrUpdateApp(
            upsert_request(replies[0]->ServiceConfigLoaded_0, replies[1]->PackageLoaded_0),
        ),
{
    reveal_with_fuel(run, 4);
    if replies.len() >= 2 {
        assert(replies.drop_first().first() == replies[1]);
    }
}

/// Whatever the identity service answers to the request is printed as it
/// is, and the run ends with exit code 0: after an application record, and
/// after an error just as well.
pub proof fn lemma_answer_is_printed_and_run_succeeds(
    config: ServiceConfigView,
    package: PackageDescriptorView,
    text: Seq<char>,
    later: Seq<ReplyView>,
)
    requires
        config.has_required_fields(),
    ensures
        install_run(
            seq![
                ReplyView::ServiceConfigLoaded(config),
                ReplyView::PackageLoaded(package),
                ReplyView::UpsertSucceeded(text),
            ] + later,
        ).ending == Some(exit_with_line(plain_line(text), 0)),
        install_run(
            seq![
                ReplyView::ServiceConfigLoaded(config),
                ReplyView::PackageLoaded(package),
                ReplyView::UpsertFailed(text),
            ] + later,
        ).ending == Some(exit_with_line(plain_line(text), 0)),
{
    let succeeded = seq![
        ReplyView::ServiceConfigLoaded(config),
        ReplyView::PackageLoaded(package),
        ReplyView::UpsertSucceeded(text),
    ] + later;
    let failed = seq![
        ReplyView::ServiceConfigLoaded(config),
        ReplyView::PackageLoaded(package),
        ReplyView::UpsertFailed(text),
    ] + later;
    reveal_with_fuel(run, 4);
    assert(succeeded.first() == ReplyView::ServiceConfigLoaded(config));
    assert(succeeded.drop_first().first() == ReplyView::PackageLoaded(package));
    assert(succeeded.drop_first().drop_first().first() == ReplyView::UpsertSucceeded(text));
    assert(failed.first() == ReplyView::ServiceConfigLoaded(config));
    assert(failed.drop_first().first() == ReplyView::PackageLoaded(package));
    assert(failed.drop_first().drop_first().first() == ReplyView::UpsertFailed(text));
}

/// Where the service configuration lacks a required field, the run is
/// aborted once both files have been read: nothing is sent.
pub proof fn lemma_missing_required_field_aborts_run(
    config: ServiceConfigView,
    package: PackageDescriptorView,
    later: Seq<ReplyView>,
)
    requires
        !config.has_required_fields(),
    ensures
        install_run(
            seq![ReplyView::ServiceConfigLoaded(config), ReplyView::PackageLoaded(package)] + later,
        ) == (RunView {
            calls: seq![CallView::ReadServiceConfig, CallView::ReadPackageDescriptor],
            ending: Some(EndingView::Abort(Fault::MissingRequiredField)),
        }),
{
    let replies = seq![ReplyView::ServiceConfigLoaded(config), ReplyView::PackageLoaded(package)]
        + later;
    assert(replies.first() == ReplyView::ServiceConfigLoaded(config));
    assert(replies.drop_first().first() == ReplyView::PackageLoaded(package));
    reveal_with_fuel(run, 3);
    assert(install_run(replies).calls =~= seq![
        CallView::ReadServiceConfig,
        CallView::ReadPackageDescriptor,
    ]);
}

} // verus!
