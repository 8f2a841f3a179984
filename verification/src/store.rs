//! What the three operations mean, told of a model of the store.
//!
//! The model is a platform that either has a configuration directory or has
//! none, a file system that either can or cannot be written and read, and a
//! file of which only what it decodes to is kept. Reading gives back the
//! record that was last written. [`load`], [`save`] and [`command`] say what
//! each operation returns and leaves behind; [`run`] plays a session against
//! the model, and the session arrives at just that.

use vstd::prelude::*;
use crate::config::{Config, Overrides};
use crate::error::ConfigError;
use crate::session::{answers, Reply, Request, Session};

verus! {

/// What the configuration file holds, as far as decoding can tell.
pub enum Content {
    /// There is no file.
    Absent,
    /// There is a file, and its text does not decode to a record.
    Garbled,
    /// There is a file, and its text decodes to this record.
    Record(Config),
}

/// The platform and its file system, as far as the operations can tell.
pub struct Store {
    /// Whether the platform has a configuration directory for the user.
    pub directory: bool,
    /// Whether directories can be created and the file written.
    pub writable: bool,
    /// Whether a file that exists can be read.
    pub readable: bool,
    /// What the configuration file holds.
    pub content: Content,
    /// The records whose listings the user has been shown, oldest first.
    pub shown: Seq<Config>,
}

impl Store {
    /// This store with `config` in its file.
    pub open spec fn holding(self, config: Config) -> Store {
        Store { content: Content::Record(config), ..self }
    }

    /// This store after the listing of `config` has been shown.
    pub open spec fn showing(self, config: Config) -> Store {
        Store { shown: self.shown.push(config), ..self }
    }

    /// Whether nothing stands in the way of reading and writing.
    pub open spec fn sound(self) -> bool {
        self.directory && self.writable && self.readable
    }
}

/// Reading the file as it stands. A file that is not there cannot be read.
pub open spec fn read(store: Store) -> Result<Config, ConfigError> {
    if !store.readable {
        Err(ConfigError::Io)
    } else {
        match store.content {
            Content::Absent => Err(ConfigError::Io),
            Content::Garbled => Err(ConfigError::Decode),
            Content::Record(config) => Ok(config),
        }
    }
}

/// Loading: the defaults are written where there is no file, and the file
/// is then read.
pub open spec fn load(store: Store) -> (Result<Config, ConfigError>, Store) {
    if !store.directory {
        (Err(ConfigError::PathResolution), store)
    } else if !(store.content is Absent) {
        (read(store), store)
    } else if !store.writable {
        (Err(ConfigError::Io), store)
    } else {
        (read(store.holding(Config::defaults())), store.holding(Config::defaults()))
    }
}

/// Saving: the file is overwritten with the whole record.
pub open spec fn save(config: Config, store: Store) -> (Result<Config, ConfigError>, Store) {
    if !store.directory {
        (Err(ConfigError::PathResolution), store)
    } else if !store.writable {
        (Err(ConfigError::Io), store)
    } else {
        (Ok(config), store.holding(config))
    }
}

/// The command: load, override, save, show. Where loading or saving fails,
/// nothing more is done.
pub open spec fn command(overrides: Overrides, store: Store) -> (
    Result<Config, ConfigError>,
    Store,
) {
    match load(store) {
        (Ok(config), loaded) => match save(config.overridden(overrides), loaded) {
            (Ok(saved), after) => (Ok(saved), after.showing(saved)),
            failed => failed,
        },
        failed => failed,
    }
}

/// The reply of the store to `request`, and the store afterwards.
pub open spec fn serve(store: Store, request: Request) -> (Reply, Store) {
    match request {
        Request::ResolveDirectory => if store.directory {
            (Reply::Resolved, store)
        } else {
            (Reply::Unresolved, store)
        },
        Request::ProbeFile => if store.content is Absent {
            (Reply::Absent, store)
        } else {
            (Reply::Present, store)
        },
        Request::WriteFile(config) => if store.writable {
            (Reply::Written, store.holding(config))
        } else {
            (Reply::Failed, store)
        },
        Request::ReadFile => match read(store) {
            Ok(config) => (Reply::Loaded(config), store),
            Err(ConfigError::Decode) => (Reply::Malformed, store),
            Err(_) => (Reply::Failed, store),
        },
        Request::Print(config) => (Reply::Printed, store.showing(config)),
        Request::Finish(_) => (Reply::Printed, store),
    }
}

/// The result that `session` ends with, and the store that it leaves, when
/// the store answers each of its requests in turn.
pub open spec fn run(session: Session, store: Store) -> (Result<Config, ConfigError>, Store)
    decreases session.remaining(),
{
    match session {
        Session::Finished { result } => (result, store),
        _ => {
            let (reply, after) = serve(store, session.pending());
            run(session.next(reply), after)
        },
    }
}

/// The store answers every request that a session can be waiting for.
pub proof fn lemma_store_answers(session: Session, store: Store)
    requires
        !(session is Finished),
    ensures
        answers(serve(store, session.pending()).0, session.pending()),
{
}

/// A session that loads ends as [`load`] says, and one that loads in order
/// to override ends as [`command`] says.
pub proof fn lemma_loading_session(update: Option<Overrides>, store: Store)
    ensures
        run(Session::Locating { update }, store) == match update {
            None => load(store),
            Some(overrides) => command(overrides, store),
        },
{
    reveal_with_fuel(run, 8);
}

/// A session that saves ends as [`save`] says.
pub proof fn lemma_saving_session(config: Config, store: Store)
    ensures
        run(Session::Relocating { config, report: false }, store) == save(config, store),
{
    reveal_with_fuel(run, 3);
}

/// Loading fails for want of a directory exactly where there is none, on
/// decoding exactly where the file can be read and is garbled, and on input
/// or output exactly where the file cannot be read, or is absent and cannot
/// be written.
pub proof fn lemma_load_errors(store: Store)
    ensures
        load(store).0 == Err::<Config, _>(ConfigError::PathResolution) <==> !store.directory,
        load(store).0 == Err::<Config, _>(ConfigError::Decode) <==> {
            &&& store.directory
            &&& store.readable
            &&& store.content is Garbled
        },
        load(store).0 == Err::<Config, _>(ConfigError::Io) <==> {
            &&& store.directory
            &&& !store.readable || (store.content is Absent && !store.writable)
        },
        load(store).0 is Ok <==> {
            &&& store.directory
            &&& store.readable
            &&& store.content is Record || (store.content is Absent && store.writable)
        },
{
}

/// Saving fails for want of a directory exactly where there is none, and on
/// output exactly where there is one and the file cannot be written. It
/// never fails on decoding.
pub proof fn lemma_save_errors(config: Config, store: Store)
    ensures
        save(config, store).0 == Err::<Config, _>(ConfigError::PathResolution) <==> !store.directory,
        save(config, store).0 == Err::<Config, _>(ConfigError::Io) <==> {
            &&& store.directory
            &&& !store.writable
        },
        save(config, store).0 == Ok::<_, ConfigError>(config) <==> {
            &&& store.directory
            &&& store.writable
        },
        save(config, store).0 != Err::<Config, _>(ConfigError::Decode),
{
}

/// An operation that fails leaves the file as it was, but for the defaults
/// that a load has put where there was no file.
pub proof fn lemma_failure_keeps_the_file(overrides: Overrides, config: Config, store: Store)
    ensures
        load(store).0 is Err ==> {
            ||| load(store).1 == store
            ||| store.content is Absent && load(store).1 == store.holding(Config::defaults())
        },
        save(config, store).0 is Err ==> save(config, store).1 == store,
        command(overrides, store).0 is Err ==> command(overrides, store).1 == load(store).1,
{
}

/// On a first run, with no file in place, loading gives the defaults, and
/// the file then holds them.
pub proof fn lemma_first_run_creates_defaults(store: Store)
    requires
        store.sound(),
        store.content is Absent,
    ensures
        load(store) == (Ok::<_, ConfigError>(Config::defaults()), store.holding(Config::defaults())),
{
}

/// What was saved is what the next load gives, and that load changes
/// nothing.
pub proof fn lemma_load_after_save(config: Config, store: Store)
    requires
        store.sound(),
    ensures
        load(save(config, store).1) == (Ok::<_, ConfigError>(config), save(config, store).1),
{
}

/// A file that does not decode is fatal: loading ends with
/// [`ConfigError::Decode`], with or without overrides to apply, and the file
/// is left as it is. The defaults are not put in its place.
pub proof fn lemma_decode_failure_is_fatal(overrides: Overrides, store: Store)
    requires
        store.directory,
        store.readable,
        store.content is Garbled,
    ensures
        load(store) == (Err::<Config, _>(ConfigError::Decode), store),
        command(overrides, store) == (Err::<Config, _>(ConfigError::Decode), store),
{
}

/// What the command has changed is there on the next load: the load gives
/// the record that the command ended with, in which each parameter that was
/// overridden has its new value, and each other parameter the value that
/// the command found. That record, and no other, is shown to the user.
pub proof fn lemma_overrides_persist(overrides: Overrides, store: Store)
    requires
        store.sound(),
        !(store.content is Garbled),
    ensures
        load(store).0 matches Ok(found) && {
            let (outcome, after) = command(overrides, store);
            &&& outcome == Ok::<_, ConfigError>(found.overridden(overrides))
            &&& after == store.holding(found.overridden(overrides)).showing(
                found.overridden(overrides),
            )
            &&& load(after) == (outcome, after)
        },
{
}

/// Overrides that are all absent change nothing: the command ends with the
/// record that the file held, and the file still holds that record.
pub proof fn lemma_no_op_override(overrides: Overrides, config: Config, store: Store)
    requires
        store.sound(),
        store.content == Content::Record(config),
        overrides.is_empty(),
    ensures
        command(overrides, store) == (Ok::<_, ConfigError>(config), store.showing(config)),
{
}

/// Only the command shows anything, and only where it succeeds.
pub proof fn lemma_what_is_shown(overrides: Overrides, config: Config, store: Store)
    ensures
        load(store).1.shown == store.shown,
        save(config, store).1.shown == store.shown,
        command(overrides, store).1.shown == match command(overrides, store).0 {
            Ok(saved) => store.shown.push(saved),
            Err(_) => store.shown,
        },
{
}

} // verus!
