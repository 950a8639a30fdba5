//! The decisions of a proving run on a remote proving service.
//!
//! The run itself is a sequence of requests and waits, which this library
//! does not make. It decides: from where the run stands and what the last
//! request brought, where the run stands next and what is to be done.

use vstd::prelude::*;

verus! {

/// The seconds to wait before asking again for the status of a session
/// that is still running.
pub const POLL_INTERVAL_SECS: u64 = 15;

/// The length of a post-state digest.
pub const DIGEST_LEN: usize = 32;

/// Why a proving run ended without a proof.
#[derive(Clone, Copy, Debug, PartialEq, Eq, Structural)]
pub enum ProvingError {
    /// A request to the service failed.
    Service,
    /// The proving session succeeded and names no receipt.
    MissingReceipt,
    /// The SNARK session succeeded and holds no SNARK.
    MissingSnark,
    /// A session ended in a state other than success.
    WorkflowExited,
    /// The post-state digest has not the length of a digest.
    InvalidDigest,
    /// An event came that the run did not wait for.
    UnexpectedEvent,
}

/// What the service says of a session.
#[derive(Clone, Copy, Debug, PartialEq, Eq, Structural)]
pub enum SessionStatus {
    Running,
    Succeeded,
    Exited,
}

/// Where a proving run stands: what it waits for.
#[derive(Clone, Copy, Debug, PartialEq, Eq, Structural)]
pub enum ProverState {
    /// Nothing has been asked yet.
    Start,
    /// The program image is being uploaded.
    UploadingImage,
    /// The input is being uploaded.
    UploadingInput,
    /// The proving session is being created.
    CreatingSession,
    /// The status of the proving session has been asked for.
    PollingSession,
    /// The run sleeps before it asks for the proving session again.
    SessionPause,
    /// The SNARK session is being created.
    CreatingSnark,
    /// The status of the SNARK session has been asked for.
    PollingSnark,
    /// The run sleeps before it asks for the SNARK session again.
    SnarkPause,
    /// The run is over.
    Finished,
}

/// What the last step of a run brought.
#[derive(Clone, Copy, Debug, PartialEq, Eq, Structural)]
pub enum ProverEvent {
    /// The run begins, with a program image of its own or without.
    Begin { has_elf: bool },
    /// The request or the wait is done.
    Completed,
    /// The request failed.
    Failed,
    /// The service told the status of the session asked for, and whether
    /// what a successful session yields is there.
    Status { status: SessionStatus, has_output: bool },
}

/// What a run is to do next.
#[derive(Clone, Copy, Debug, PartialEq, Eq, Structural)]
pub enum ProverAction {
    UploadImage,
    UploadInput,
    CreateSession,
    PollSession,
    CreateSnark,
    PollSnark,
    /// Wait for so many seconds.
    Sleep(u64),
    /// Encode the seal and hand out the proof.
    Finish,
    /// Give up with this error.
    Abort(ProvingError),
}

/// An implementation of a prover that runs on a remote proving service.
pub struct BonsaiProver {}

/// The status that the service's word `status` stands for.
pub open spec fn spec_session_status(status: Seq<char>) -> SessionStatus {
    if status == "RUNNING"@ {
        SessionStatus::Running
    } else if status == "SUCCEEDED"@ {
        SessionStatus::Succeeded
    } else {
        SessionStatus::Exited
    }
}

/// What follows a status report on a session: a running session is asked
/// again after a pause, a successful one with its output lets the run go
/// `onward`, one without it fails with `missing`, and any other end of the
/// session ends the run.
pub open spec fn spec_on_status(
    status: SessionStatus,
    has_output: bool,
    pause: ProverState,
    onward: (ProverState, ProverAction),
    missing: ProvingError,
) -> (ProverState, ProverAction) {
    match status {
        SessionStatus::Running => (pause, ProverAction::Sleep(POLL_INTERVAL_SECS)),
        SessionStatus::Succeeded => if has_output {
            onward
        } else {
            (ProverState::Finished, ProverAction::Abort(missing))
        },
        SessionStatus::Exited => (ProverState::Finished, ProverAction::Abort(ProvingError::WorkflowExited)),
    }
}

/// The step of a run: from where it stands and what came, where it stands
/// next and what it does.
pub open spec fn spec_step(state: ProverState, event: ProverEvent) -> (ProverState, ProverAction) {
    match (state, event) {
        (ProverState::Finished, _) => (ProverState::Finished, ProverAction::Abort(ProvingError::UnexpectedEvent)),
        (_, ProverEvent::Failed) => (ProverState::Finished, ProverAction::Abort(ProvingError::Service)),
        (ProverState::Start, ProverEvent::Begin { has_elf }) => if has_elf {
            (ProverState::UploadingImage, ProverAction::UploadImage)
        } else {
            (ProverState::UploadingInput, ProverAction::UploadInput)
        },
        (ProverState::UploadingImage, ProverEvent::Completed) => (ProverState::UploadingInput, ProverAction::UploadInput),
        (ProverState::UploadingInput, ProverEvent::Completed) => (ProverState::CreatingSession, ProverAction::CreateSession),
        (ProverState::CreatingSession, ProverEvent::Completed) => (ProverState::PollingSession, ProverAction::PollSession),
        (ProverState::PollingSession, ProverEvent::Status { status, has_output }) => spec_on_status(
            status,
            has_output,
            ProverState::SessionPause,
            (ProverState::CreatingSnark, ProverAction::CreateSnark),
            ProvingError::MissingReceipt,
        ),
        (ProverState::SessionPause, ProverEvent::Completed) => (ProverState::PollingSession, ProverAction::PollSession),
        (ProverState::CreatingSnark, ProverEvent::Completed) => (ProverState::PollingSnark, ProverAction::PollSnark),
        (ProverState::PollingSnark, ProverEvent::Status { status, has_output }) => spec_on_status(
            status,
            has_output,
            ProverState::SnarkPause,
            (ProverState::Finished, ProverAction::Finish),
            ProvingError::MissingSnark,
        ),
        (ProverState::SnarkPause, ProverEvent::Completed) => (ProverState::PollingSnark, ProverAction::PollSnark),
        _ => (ProverState::Finished, ProverAction::Abort(ProvingError::UnexpectedEvent)),
    }
}

/// The version of the proving system that a run declares to the service
/// where none is configured.
pub open spec fn spec_default_risc_zero_version() -> Seq<char> {
    "1.0.1"@
}

/// Whether `action` ends a run.
pub open spec fn spec_is_final(action: ProverAction) -> bool {
    action is Finish || action is Abort
}

impl BonsaiProver {
    /// The version of the proving system that a run declares to the
    /// service: the configured one, or the default where none is
    /// configured.
    pub fn risc_zero_version(configured: Option<String>) -> (res: String)
        ensures
            res@ == match configured {
                Some(version) => version@,
                None => spec_default_risc_zero_version(),
            },
    {
        match configured {
            Some(version) => version,
            None => "1.0.1".to_owned(),
        }
    }

    /// The identifier of the program image that a run proves: the one
    /// computed from the run's own image, or the default where the run
    /// brings no image.
    pub fn image_id_hex(computed: Option<String>, default_image_id: String) -> (res: String)
        ensures
            res@ == match computed {
                Some(image_id) => image_id@,
                None => default_image_id@,
            },
    {
        match computed {
            Some(image_id) => image_id,
            None => default_image_id,
        }
    }

    /// The status that the service's word `status` stands for.
    pub fn session_status(status: &String) -> (res: SessionStatus)
        ensures
            res == spec_session_status(status@),
    {
        let running: String = "RUNNING".to_owned();
        let succeeded: String = "SUCCEEDED".to_owned();
        if *status == running {
            SessionStatus::Running
        } else if *status == succeeded {
            SessionStatus::Succeeded
        } else {
            SessionStatus::Exited
        }
    }

    /// What follows a status report on a session.
    pub fn on_status(
        status: SessionStatus,
        has_output: bool,
        pause: ProverState,
        onward: (ProverState, ProverAction),
        missing: ProvingError,
    ) -> (res: (ProverState, ProverAction))
        ensures
            res == spec_on_status(status, has_output, pause, onward, missing),
    {
        match status {
            SessionStatus::Running => (pause, ProverAction::Sleep(POLL_INTERVAL_SECS)),
            SessionStatus::Succeeded => {
                if has_output {
                    onward
                } else {
                    (ProverState::Finished, ProverAction::Abort(missing))
                }
            },
            SessionStatus::Exited => (ProverState::Finished, ProverAction::Abort(ProvingError::WorkflowExited)),
        }
    }

    /// One step of a proving run.
    ///
    /// The run is over exactly when the action is `Finish` or `Abort`; a
    /// proof is handed out only from a SNARK session that succeeded with
    /// its SNARK, and the run sleeps only on a session that is running.
    pub fn step(state: ProverState, event: ProverEvent) -> (res: (ProverState, ProverAction))
        ensures
            res == spec_step(state, event),
            res.0 is Finished <==> spec_is_final(res.1),
            res.1 is Finish <==> state is PollingSnark && event == (ProverEvent::Status {
                status: SessionStatus::Succeeded,
                has_output: true,
            }),
            res.1 is Sleep <==> (state is PollingSession || state is PollingSnark) && event matches ProverEvent::Status {
                status: SessionStatus::Running,
                ..
            },
            res.1 matches ProverAction::Sleep(seconds) ==> seconds == POLL_INTERVAL_SECS,
    {
        let unexpected = (ProverState::Finished, ProverAction::Abort(ProvingError::UnexpectedEvent));
        match state {
            ProverState::Finished => unexpected,
            _ => match event {
                ProverEvent::Failed => (ProverState::Finished, ProverAction::Abort(ProvingError::Service)),
                ProverEvent::Begin { has_elf } => match state {
                    ProverState::Start => {
                        if has_elf {
                            (ProverState::UploadingImage, ProverAction::UploadImage)
                        } else {
                            (ProverState::UploadingInput, ProverAction::UploadInput)
                        }
                    },
                    _ => unexpected,
                },
                ProverEvent::Completed => match state {
                    ProverState::UploadingImage => (ProverState::UploadingInput, ProverAction::UploadInput),
                    ProverState::UploadingInput => (ProverState::CreatingSession, ProverAction::CreateSession),
                    ProverState::CreatingSession => (ProverState::PollingSession, ProverAction::PollSession),
                    ProverState::SessionPause => (ProverState::PollingSession, ProverAction::PollSession),
                    ProverState::CreatingSnark => (ProverState::PollingSnark, ProverAction::PollSnark),
                    ProverState::SnarkPause => (ProverState::PollingSnark, ProverAction::PollSnark),
                    _ => unexpected,
                },
                ProverEvent::Status { status, has_output } => match state {
                    ProverState::PollingSession => Self::on_status(
                        status,
                        has_output,
                        ProverState::SessionPause,
                        (ProverState::CreatingSnark, ProverAction::CreateSnark),
                        ProvingError::MissingReceipt,
                    ),
                    ProverState::PollingSnark => Self::on_status(
                        status,
                        has_output,
                        ProverState::SnarkPause,
                        (ProverState::Finished, ProverAction::Finish),
                        ProvingError::MissingSnark,
                    ),
                    _ => unexpected,
                },
            },
        }
    }

    /// The post-state digest in `digest`, which must hold exactly the
    /// bytes of one.
    pub fn post_state_digest(digest: &[u8]) -> (res: Result<[u8; 32], ProvingError>)
        ensures
            digest@.len() == DIGEST_LEN ==> (res matches Ok(out) && out@ == digest@),
            digest@.len() != DIGEST_LEN ==> res == Err::<[u8; 32], ProvingError>(ProvingError::InvalidDigest),
    {
        if digest.len() != DIGEST_LEN {
            return Err(ProvingError::InvalidDigest);
        }
        let mut out: [u8; 32] = [0u8; 32];
        let mut i: usize = 0;
        while i < DIGEST_LEN
            invariant
                i <= DIGEST_LEN,
                digest@.len() == DIGEST_LEN,
                forall|k: int| 0 <= k < i ==> out@[k] == digest@[k],
            decreases DIGEST_LEN - i,
        {
            out[i] = digest[i];
            i += 1;
        }
        assert(out@ =~= digest@);
        Ok(out)
    }
}

} // verus!
