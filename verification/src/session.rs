//! The three operations on the configuration store, each as a conversation
//! with the caller.
//!
//! A [`Session`] never touches the outside world. It names the next thing to
//! be done as a [`Request`]; the caller does it and reports what happened as
//! a [`Reply`]; the session moves on. A reply that does not answer the
//! pending request is ignored, and the request stands.

use vstd::prelude::*;
use crate::config::{Config, Overrides};
use crate::error::ConfigError;
use crate::single::Single;
use crate::store::{command, lemma_loading_session, lemma_saving_session, load, run, save, Store};

verus! {

/// Where the configuration file lies, from the configuration directory.
pub const CONFIG_FILE: &'static str = "rotour/config.toml";

/// What the caller is asked to do next.
#[derive(Clone, Copy, Debug, PartialEq, Eq)]
pub enum Request {
    /// Find the platform's configuration directory for the current user.
    /// Answered by [`Reply::Resolved`] or [`Reply::Unresolved`].
    ResolveDirectory,
    /// Tell whether the configuration file exists. Answered by
    /// [`Reply::Present`] or [`Reply::Absent`].
    ProbeFile,
    /// Encode the whole record, create the file's directory and all its
    /// parents where they are missing, and overwrite the file. Answered by
    /// [`Reply::Written`] or [`Reply::Failed`].
    WriteFile(Config),
    /// Read the file as text and decode it. Answered by [`Reply::Loaded`],
    /// [`Reply::Malformed`] or [`Reply::Failed`].
    ReadFile,
    /// Show the listing of this record to the user. Answered by
    /// [`Reply::Printed`].
    Print(Config),
    /// Stop: the operation has ended with this result. On success the record
    /// is the one that was loaded, or the one that was saved.
    Finish(Result<Config, ConfigError>),
}

/// What came of a request.
#[derive(Clone, Copy, Debug, PartialEq, Eq, Structural)]
pub enum Reply {
    /// The configuration directory is known.
    Resolved,
    /// No configuration directory can be determined.
    Unresolved,
    /// The configuration file exists.
    Present,
    /// The configuration file does not exist.
    Absent,
    /// The record was encoded and the file now holds it.
    Written,
    /// The file was read and its text decodes to this record.
    Loaded(Config),
    /// The file was read, but its text does not decode to a record.
    Malformed,
    /// Encoding, creating a directory, reading or writing failed.
    Failed,
    /// The listing was shown.
    Printed,
}

/// An operation in progress.
///
/// Loading goes through `Locating`, `Probing`, `Seeding` (only where the file
/// is absent) and `Reading`; `update` holds the overrides to apply to the
/// loaded record and persist, or `None` where the record is just handed
/// back. Saving goes through `Relocating` and `Writing`; `report` tells
/// whether the saved record is then listed for the user.
#[derive(Clone, Copy, Debug, PartialEq, Eq)]
pub enum Session {
    /// Loading: waiting for the configuration directory.
    Locating { update: Option<Overrides> },
    /// Loading: waiting to learn whether the file exists.
    Probing { update: Option<Overrides> },
    /// Loading: the file is absent; waiting for the defaults to be written.
    Seeding { update: Option<Overrides> },
    /// Loading: waiting for the file's content.
    Reading { update: Option<Overrides> },
    /// Saving: waiting for the configuration directory.
    Relocating { config: Config, report: bool },
    /// Saving: waiting for the record to be written.
    Writing { config: Config, report: bool },
    /// Waiting for the listing to be shown.
    Reporting { config: Config },
    /// Nothing is left to do.
    Finished { result: Result<Config, ConfigError> },
}

/// Whether `reply` is one of the replies by which `request` is answered.
pub open spec fn answers(reply: Reply, request: Request) -> bool {
    match request {
        Request::ResolveDirectory => reply == Reply::Resolved || reply == Reply::Unresolved,
        Request::ProbeFile => reply == Reply::Present || reply == Reply::Absent,
        Request::WriteFile(_) => reply == Reply::Written || reply == Reply::Failed,
        Request::ReadFile => reply is Loaded || reply == Reply::Malformed || reply == Reply::Failed,
        Request::Print(_) => reply == Reply::Printed,
        Request::Finish(_) => false,
    }
}

impl Session {
    /// The request that this session is waiting to have answered.
    pub open spec fn pending(self) -> Request {
        match self {
            Session::Locating { .. } => Request::ResolveDirectory,
            Session::Probing { .. } => Request::ProbeFile,
            Session::Seeding { .. } => Request::WriteFile(Config::defaults()),
            Session::Reading { .. } => Request::ReadFile,
            Session::Relocating { .. } => Request::ResolveDirectory,
            Session::Writing { config, .. } => Request::WriteFile(config),
            Session::Reporting { config } => Request::Print(config),
            Session::Finished { result } => Request::Finish(result),
        }
    }

    /// The session after `reply` has been reported.
    pub open spec fn next(self, reply: Reply) -> Session {
        match (self, reply) {
            (Session::Locating { update }, Reply::Resolved) => Session::Probing { update },
            (Session::Locating { .. }, Reply::Unresolved) => Session::Finished {
                result: Err(ConfigError::PathResolution),
            },
            (Session::Probing { update }, Reply::Present) => Session::Reading { update },
            (Session::Probing { update }, Reply::Absent) => Session::Seeding { update },
            (Session::Seeding { update }, Reply::Written) => Session::Reading { update },
            (Session::Seeding { .. }, Reply::Failed) => Session::Finished {
                result: Err(ConfigError::Io),
            },
            (Session::Reading { update: None }, Reply::Loaded(config)) => Session::Finished {
                result: Ok(config),
            },
            (Session::Reading { update: Some(overrides) }, Reply::Loaded(config)) => {
                Session::Relocating { config: config.overridden(overrides), report: true }
            },
            (Session::Reading { .. }, Reply::Malformed) => Session::Finished {
                result: Err(ConfigError::Decode),
            },
            (Session::Reading { .. }, Reply::Failed) => Session::Finished {
                result: Err(ConfigError::Io),
            },
            (Session::Relocating { config, report }, Reply::Resolved) => Session::Writing {
                config,
                report,
            },
            (Session::Relocating { .. }, Reply::Unresolved) => Session::Finished {
                result: Err(ConfigError::PathResolution),
            },
            (Session::Writing { config, report }, Reply::Written) => if report {
                Session::Reporting { config }
            } else {
                Session::Finished { result: Ok(config) }
            },
            (Session::Writing { .. }, Reply::Failed) => Session::Finished {
                result: Err(ConfigError::Io),
            },
            (Session::Reporting { config }, Reply::Printed) => Session::Finished {
                result: Ok(config),
            },
            _ => self,
        }
    }

    /// An upper bound on the number of answered requests that this session
    /// still needs before it is finished.
    pub open spec fn remaining(self) -> nat {
        match self {
            Session::Locating { .. } => 7,
            Session::Probing { .. } => 6,
            Session::Seeding { .. } => 5,
            Session::Reading { .. } => 4,
            Session::Relocating { .. } => 3,
            Session::Writing { .. } => 2,
            Session::Reporting { .. } => 1,
            Session::Finished { .. } => 0,
        }
    }

    /// The request that this session is waiting to have answered.
    pub fn request(&self) -> (request: Request)
        ensures
            request == self.pending(),
    {
        match *self {
            Session::Locating { .. } | Session::Relocating { .. } => Request::ResolveDirectory,
            Session::Probing { .. } => Request::ProbeFile,
            Session::Seeding { .. } => Request::WriteFile(Config::default()),
            Session::Reading { .. } => Request::ReadFile,
            Session::Writing { config, .. } => Request::WriteFile(config),
            Session::Reporting { config } => Request::Print(config),
            Session::Finished { result } => Request::Finish(result),
        }
    }

    /// Takes in what came of the pending request, moves on, and hands out
    /// the request that is pending now.
    pub fn step(&mut self, reply: Reply) -> (request: Request)
        ensures
            *final(self) == old(self).next(reply),
            request == final(self).pending(),
    {
        let current = *self;
        let after = match current {
            Session::Locating { update } => match reply {
                Reply::Resolved => Session::Probing { update },
                Reply::Unresolved => fail(ConfigError::PathResolution),
                _ => current,
            },
            Session::Probing { update } => match reply {
                Reply::Present => Session::Reading { update },
                Reply::Absent => Session::Seeding { update },
                _ => current,
            },
            Session::Seeding { update } => match reply {
                Reply::Written => Session::Reading { update },
                Reply::Failed => fail(ConfigError::Io),
                _ => current,
            },
            Session::Reading { update } => match reply {
                Reply::Loaded(loaded) => match update {
                    Some(overrides) => {
                        let mut config = loaded;
                        config.apply(&overrides);
                        Session::Relocating { config, report: true }
                    },
                    None => Session::Finished { result: Ok(loaded) },
                },
                Reply::Malformed => fail(ConfigError::Decode),
                Reply::Failed => fail(ConfigError::Io),
                _ => current,
            },
            Session::Relocating { config, report } => match reply {
                Reply::Resolved => Session::Writing { config, report },
                Reply::Unresolved => fail(ConfigError::PathResolution),
                _ => current,
            },
            Session::Writing { config, report } => match reply {
                Reply::Written => if report {
                    Session::Reporting { config }
                } else {
                    Session::Finished { result: Ok(config) }
                },
                Reply::Failed => fail(ConfigError::Io),
                _ => current,
            },
            Session::Reporting { config } => match reply {
                Reply::Printed => Session::Finished { result: Ok(config) },
                _ => current,
            },
            Session::Finished { .. } => current,
        };
        *self = after;
        after.request()
    }
}

/// A reply that does not answer the pending request changes nothing. A
/// finished session, whose request nothing answers, therefore stays as it
/// is.
pub proof fn lemma_other_replies_are_ignored(session: Session, reply: Reply)
    requires
        !answers(reply, session.pending()),
    ensures
        session.next(reply) == session,
{
}

/// Each answer brings the session nearer to its end, so that no session
/// takes more than seven answers.
pub proof fn lemma_answers_make_progress(session: Session, reply: Reply)
    requires
        answers(reply, session.pending()),
    ensures
        session.next(reply).remaining() < session.remaining() <= 7,
{
}

/// A session fails only on the report of a failure, and the kind of its
/// error is the kind of that failure: no directory gives
/// [`ConfigError::PathResolution`], undecodable text gives
/// [`ConfigError::Decode`], and everything else that went wrong gives
/// [`ConfigError::Io`].
pub proof fn lemma_errors_follow_replies(session: Session, reply: Reply, error: ConfigError)
    requires
        !(session is Finished),
        session.next(reply) == (Session::Finished { result: Err(error) }),
    ensures
        error == ConfigError::PathResolution <==> reply == Reply::Unresolved,
        error == ConfigError::Decode <==> reply == Reply::Malformed,
        error == ConfigError::Io <==> reply == Reply::Failed,
{
}

/// The session that has ended with `error`.
fn fail(error: ConfigError) -> (session: Session)
    ensures
        session == (Session::Finished { result: Err(error) }),
{
    Session::Finished { result: Err(error) }
}

/// Begins loading the configuration.
///
/// The session asks for the configuration directory, then whether the file
/// exists. Where it does not, the defaults are written first. Then the file
/// is read, and the session ends with the record it holds. A file that does
/// not decode ends the session with [`ConfigError::Decode`]; the defaults
/// never stand in for it.
pub fn read_config() -> (session: Session)
    ensures
        session == (Session::Locating { update: None }),
        forall|store: Store| #[trigger] run(session, store) == load(store),
{
    let session = Session::Locating { update: None };
    assert forall|store: Store| #[trigger] run(session, store) == load(store) by {
        lemma_loading_session(None, store);
    }
    session
}

/// Begins saving `config`.
///
/// The session asks for the configuration directory, then for the whole
/// record to be written over the file, and ends with the record it saved.
pub fn save_config(config: &Config) -> (session: Session)
    ensures
        session == (Session::Relocating { config: *config, report: false }),
        forall|store: Store| #[trigger] run(session, store) == save(*config, store),
{
    let session = Session::Relocating { config: *config, report: false };
    assert forall|store: Store| #[trigger] run(session, store) == save(*config, store) by {
        lemma_saving_session(*config, store);
    }
    session
}

/// Begins the command that changes some parameters and shows the result.
///
/// The session loads the configuration as [`read_config`] does, puts each
/// argument that is `Some` in place of the parameter of its name, saves the
/// resulting record as [`save_config`] does, and asks for its listing to be
/// shown. It ends with the record it saved.
pub fn config_command(
    ticks_per_cm: Option<u32>,
    track_width_ticks: Option<u32>,
    static_friction: Option<Single>,
    kp_turn: Option<Single>,
    kp_hold: Option<Single>,
    kp_straight: Option<Single>,
    kp_velocity: Option<Single>,
    turn_accel_time: Option<Single>,
    straight_accel_time: Option<Single>,
) -> (session: Session)
    ensures
        ({
            let overrides = Overrides {
                ticks_per_cm,
                track_width_ticks,
                static_friction,
                kp_turn,
                kp_hold,
                kp_straight,
                kp_velocity,
                turn_accel_time,
                straight_accel_time,
            };
            &&& session == (Session::Locating { update: Some(overrides) })
            &&& forall|store: Store| #[trigger] run(session, store) == command(overrides, store)
        }),
{
    let overrides = Overrides {
        ticks_per_cm,
        track_width_ticks,
        static_friction,
        kp_turn,
        kp_hold,
        kp_straight,
        kp_velocity,
        turn_accel_time,
        straight_accel_time,
    };
    let session = Session::Locating { update: Some(overrides) };
    assert forall|store: Store| #[trigger] run(session, store) == command(overrides, store) by {
        lemma_loading_session(Some(overrides), store);
    }
    session
}

} // verus!
