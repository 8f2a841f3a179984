use rotour_config::{
    config_command, read_config, save_config, Config, ConfigError, Overrides, Reply, Request,
    Session, Single,
};

fn number(value: f32) -> Single {
    Single::from_bits(value.to_bits())
}

fn sample() -> Config {
    Config {
        ticks_per_cm: 17,
        track_width_ticks: 180,
        static_friction: number(30.0),
        kp_turn: number(0.75),
        kp_hold: number(4.0),
        kp_straight: number(1.25),
        kp_velocity: number(6.0),
        turn_accel_time: number(0.125),
        straight_accel_time: number(1.0),
    }
}

/// What stands for a file's content: a record, or text that does not decode.
#[derive(Clone, Copy, Debug, PartialEq)]
enum Content {
    Record(Config),
    Garbled,
}

/// A stand-in for the platform and its file system.
struct Disk {
    directory: bool,
    file: Option<Content>,
    writable: bool,
    readable: bool,
    printed: Vec<Config>,
    asked: Vec<Request>,
}

impl Disk {
    fn new(file: Option<Content>) -> Disk {
        Disk {
            directory: true,
            file,
            writable: true,
            readable: true,
            printed: Vec::new(),
            asked: Vec::new(),
        }
    }

    fn answer(&mut self, request: Request) -> Reply {
        self.asked.push(request);
        match request {
            Request::ResolveDirectory => {
                if self.directory {
                    Reply::Resolved
                } else {
                    Reply::Unresolved
                }
            }
            Request::ProbeFile => {
                if self.file.is_some() {
                    Reply::Present
                } else {
                    Reply::Absent
                }
            }
            Request::WriteFile(config) => {
                if self.writable {
                    self.file = Some(Content::Record(config));
                    Reply::Written
                } else {
                    Reply::Failed
                }
            }
            Request::ReadFile => match self.file {
                Some(Content::Record(config)) if self.readable => Reply::Loaded(config),
                Some(Content::Garbled) if self.readable => Reply::Malformed,
                _ => Reply::Failed,
            },
            Request::Print(config) => {
                self.printed.push(config);
                Reply::Printed
            }
            Request::Finish(_) => unreachable!(),
        }
    }
}

fn run(mut session: Session, disk: &mut Disk) -> Result<Config, ConfigError> {
    let mut request = session.request();
    for _ in 0..8 {
        if let Request::Finish(result) = request {
            return result;
        }
        let reply = disk.answer(request);
        request = session.step(reply);
    }
    panic!("the session did not finish: {:?}", session);
}

fn command(overrides: Overrides) -> Session {
    config_command(
        overrides.ticks_per_cm,
        overrides.track_width_ticks,
        overrides.static_friction,
        overrides.kp_turn,
        overrides.kp_hold,
        overrides.kp_straight,
        overrides.kp_velocity,
        overrides.turn_accel_time,
        overrides.straight_accel_time,
    )
}

#[test]
fn first_run_creates_the_defaults() {
    let mut disk = Disk::new(None);
    let loaded = run(read_config(), &mut disk);
    assert_eq!(loaded, Ok(Config::default()));
    assert_eq!(disk.file, Some(Content::Record(Config::default())));
    assert_eq!(
        disk.asked,
        vec![
            Request::ResolveDirectory,
            Request::ProbeFile,
            Request::WriteFile(Config::default()),
            Request::ReadFile,
        ]
    );
    let loaded = loaded.unwrap();
    assert_eq!(loaded.ticks_per_cm, 13);
    assert_eq!(loaded.track_width_ticks, 201);
    assert_eq!(f32::from_bits(loaded.static_friction.to_bits()), 35.0);
    assert_eq!(f32::from_bits(loaded.kp_turn.to_bits()), 0.5);
    assert_eq!(f32::from_bits(loaded.kp_hold.to_bits()), 5.0);
    assert_eq!(f32::from_bits(loaded.kp_straight.to_bits()), 1.5);
    assert_eq!(f32::from_bits(loaded.kp_velocity.to_bits()), 5.0);
    assert_eq!(f32::from_bits(loaded.turn_accel_time.to_bits()), 0.25);
    assert_eq!(f32::from_bits(loaded.straight_accel_time.to_bits()), 0.5);
}

#[test]
fn a_present_file_is_read_and_not_written() {
    let mut disk = Disk::new(Some(Content::Record(sample())));
    assert_eq!(run(read_config(), &mut disk), Ok(sample()));
    assert_eq!(disk.file, Some(Content::Record(sample())));
    assert_eq!(
        disk.asked,
        vec![Request::ResolveDirectory, Request::ProbeFile, Request::ReadFile]
    );
}

#[test]
fn selective_override_from_the_defaults() {
    let mut disk = Disk::new(None);
    let saved = run(
        command(Overrides { kp_turn: Some(number(0.9)), ..Overrides::none() }),
        &mut disk,
    )
    .unwrap();
    let defaults = Config::default();
    assert_eq!(f32::from_bits(saved.kp_turn.to_bits()), 0.9);
    assert_eq!(saved, Config { kp_turn: number(0.9), ..defaults });
    assert_eq!(disk.file, Some(Content::Record(saved)));
    assert_eq!(disk.printed, vec![saved]);
}

#[test]
fn an_override_persists_across_invocations() {
    let mut disk = Disk::new(None);
    let saved = run(
        command(Overrides { ticks_per_cm: Some(20), ..Overrides::none() }),
        &mut disk,
    );
    assert!(saved.is_ok());
    let loaded = run(read_config(), &mut disk).unwrap();
    assert_eq!(loaded.ticks_per_cm, 20);
    assert_eq!(loaded, Config { ticks_per_cm: 20, ..Config::default() });
    assert_eq!(Ok(loaded), saved);
}

#[test]
fn decode_failure_is_fatal() {
    let mut disk = Disk::new(Some(Content::Garbled));
    assert_eq!(run(read_config(), &mut disk), Err(ConfigError::Decode));
    assert_eq!(disk.file, Some(Content::Garbled));
    assert_eq!(
        disk.asked,
        vec![Request::ResolveDirectory, Request::ProbeFile, Request::ReadFile]
    );
}

#[test]
fn decode_failure_ends_the_command_before_anything_is_written() {
    let mut disk = Disk::new(Some(Content::Garbled));
    let outcome = run(
        command(Overrides { ticks_per_cm: Some(20), ..Overrides::none() }),
        &mut disk,
    );
    assert_eq!(outcome, Err(ConfigError::Decode));
    assert_eq!(disk.file, Some(Content::Garbled));
    assert!(disk.printed.is_empty());
    assert!(!disk.asked.iter().any(|request| matches!(request, Request::WriteFile(_))));
}

#[test]
fn no_op_override_keeps_the_record() {
    let mut disk = Disk::new(Some(Content::Record(sample())));
    let saved = run(command(Overrides::none()), &mut disk);
    assert_eq!(saved, Ok(sample()));
    assert_eq!(disk.file, Some(Content::Record(sample())));
    assert_eq!(
        disk.asked,
        vec![
            Request::ResolveDirectory,
            Request::ProbeFile,
            Request::ReadFile,
            Request::ResolveDirectory,
            Request::WriteFile(sample()),
            Request::Print(sample()),
        ]
    );
}

#[test]
fn no_op_override_on_a_first_run_persists_the_defaults() {
    let mut disk = Disk::new(None);
    assert_eq!(run(command(Overrides::none()), &mut disk), Ok(Config::default()));
    assert_eq!(disk.file, Some(Content::Record(Config::default())));
    assert_eq!(disk.printed, vec![Config::default()]);
}

#[test]
fn the_command_overrides_what_was_loaded() {
    let mut disk = Disk::new(Some(Content::Record(sample())));
    let overrides = Overrides {
        track_width_ticks: Some(190),
        straight_accel_time: Some(number(0.75)),
        ..Overrides::none()
    };
    let expected = Config {
        track_width_ticks: 190,
        straight_accel_time: number(0.75),
        ..sample()
    };
    assert_eq!(run(command(overrides), &mut disk), Ok(expected));
    assert_eq!(disk.file, Some(Content::Record(expected)));
    assert_eq!(disk.printed, vec![expected]);
}

#[test]
fn saving_overwrites_the_whole_record() {
    let mut disk = Disk::new(Some(Content::Garbled));
    assert_eq!(run(save_config(&sample()), &mut disk), Ok(sample()));
    assert_eq!(disk.file, Some(Content::Record(sample())));
    assert_eq!(disk.asked, vec![Request::ResolveDirectory, Request::WriteFile(sample())]);
    assert!(disk.printed.is_empty());

    let mut empty = Disk::new(None);
    assert_eq!(run(save_config(&sample()), &mut empty), Ok(sample()));
    assert_eq!(empty.file, Some(Content::Record(sample())));
}

#[test]
fn no_directory_is_a_path_resolution_error() {
    let mut disk = Disk::new(Some(Content::Record(sample())));
    disk.directory = false;
    assert_eq!(run(read_config(), &mut disk), Err(ConfigError::PathResolution));
    assert_eq!(run(save_config(&Config::default()), &mut disk), Err(ConfigError::PathResolution));
    assert_eq!(run(command(Overrides::none()), &mut disk), Err(ConfigError::PathResolution));
    assert_eq!(disk.file, Some(Content::Record(sample())));
    assert_eq!(
        disk.asked,
        vec![Request::ResolveDirectory, Request::ResolveDirectory, Request::ResolveDirectory]
    );
}

#[test]
fn the_directory_is_resolved_again_before_saving() {
    let mut session = command(Overrides::none());
    assert_eq!(session.request(), Request::ResolveDirectory);
    assert_eq!(session.step(Reply::Resolved), Request::ProbeFile);
    assert_eq!(session.step(Reply::Present), Request::ReadFile);
    assert_eq!(session.step(Reply::Loaded(sample())), Request::ResolveDirectory);
    assert_eq!(
        session.step(Reply::Unresolved),
        Request::Finish(Err(ConfigError::PathResolution))
    );
}

#[test]
fn a_failed_write_is_an_io_error() {
    let mut disk = Disk::new(None);
    disk.writable = false;
    assert_eq!(run(read_config(), &mut disk), Err(ConfigError::Io));
    assert_eq!(disk.file, None);

    let mut disk = Disk::new(Some(Content::Record(sample())));
    disk.writable = false;
    assert_eq!(run(save_config(&Config::default()), &mut disk), Err(ConfigError::Io));
    assert_eq!(run(command(Overrides::none()), &mut disk), Err(ConfigError::Io));
    assert_eq!(disk.file, Some(Content::Record(sample())));
    assert!(disk.printed.is_empty());
}

#[test]
fn a_failed_read_is_an_io_error() {
    let mut disk = Disk::new(Some(Content::Record(sample())));
    disk.readable = false;
    assert_eq!(run(read_config(), &mut disk), Err(ConfigError::Io));
    assert_eq!(run(command(Overrides::none()), &mut disk), Err(ConfigError::Io));

    let mut garbled = Disk::new(Some(Content::Garbled));
    garbled.readable = false;
    assert_eq!(run(read_config(), &mut garbled), Err(ConfigError::Io));
}

#[test]
fn a_reply_that_does_not_answer_is_ignored() {
    let replies = [
        Reply::Resolved,
        Reply::Unresolved,
        Reply::Present,
        Reply::Absent,
        Reply::Written,
        Reply::Loaded(sample()),
        Reply::Malformed,
        Reply::Failed,
        Reply::Printed,
    ];
    let answers = |request: Request, reply: Reply| match request {
        Request::ResolveDirectory => matches!(reply, Reply::Resolved | Reply::Unresolved),
        Request::ProbeFile => matches!(reply, Reply::Present | Reply::Absent),
        Request::WriteFile(_) => matches!(reply, Reply::Written | Reply::Failed),
        Request::ReadFile => {
            matches!(reply, Reply::Loaded(_) | Reply::Malformed | Reply::Failed)
        }
        Request::Print(_) => matches!(reply, Reply::Printed),
        Request::Finish(_) => false,
    };
    let overrides = Overrides { ticks_per_cm: Some(20), ..Overrides::none() };
    let sessions = [
        Session::Locating { update: None },
        Session::Locating { update: Some(overrides) },
        Session::Probing { update: None },
        Session::Seeding { update: Some(overrides) },
        Session::Reading { update: None },
        Session::Reading { update: Some(overrides) },
        Session::Relocating { config: sample(), report: false },
        Session::Writing { config: sample(), report: true },
        Session::Writing { config: sample(), report: false },
        Session::Reporting { config: sample() },
        Session::Finished { result: Ok(sample()) },
        Session::Finished { result: Err(ConfigError::Io) },
    ];
    for session in sessions {
        for reply in replies {
            let mut stepped = session;
            let request = stepped.step(reply);
            assert_eq!(request, stepped.request());
            if answers(session.request(), reply) {
                assert_ne!(stepped, session);
            } else {
                assert_eq!(stepped, session);
                assert_eq!(request, session.request());
            }
        }
    }
}

#[test]
fn a_finished_session_repeats_its_result() {
    let mut session = read_config();
    session.step(Reply::Unresolved);
    assert_eq!(session, Session::Finished { result: Err(ConfigError::PathResolution) });
    assert_eq!(session.step(Reply::Resolved), Request::Finish(Err(ConfigError::PathResolution)));
    assert_eq!(session.step(Reply::Loaded(sample())), Request::Finish(Err(ConfigError::PathResolution)));
    assert_eq!(session.request(), Request::Finish(Err(ConfigError::PathResolution)));
}

#[test]
fn the_sessions_begin_where_they_should() {
    assert_eq!(read_config(), Session::Locating { update: None });
    assert_eq!(read_config().request(), Request::ResolveDirectory);
    assert_eq!(
        save_config(&sample()),
        Session::Relocating { config: sample(), report: false }
    );
    assert_eq!(save_config(&sample()).request(), Request::ResolveDirectory);
    let session = config_command(
        Some(1),
        Some(2),
        Some(number(3.0)),
        Some(number(4.0)),
        Some(number(5.0)),
        Some(number(6.0)),
        Some(number(7.0)),
        Some(number(8.0)),
        Some(number(9.0)),
    );
    assert_eq!(
        session,
        Session::Locating {
            update: Some(Overrides {
                ticks_per_cm: Some(1),
                track_width_ticks: Some(2),
                static_friction: Some(number(3.0)),
                kp_turn: Some(number(4.0)),
                kp_hold: Some(number(5.0)),
                kp_straight: Some(number(6.0)),
                kp_velocity: Some(number(7.0)),
                turn_accel_time: Some(number(8.0)),
                straight_accel_time: Some(number(9.0)),
            }),
        }
    );
}

#[test]
fn the_command_takes_seven_answers_on_a_first_run() {
    let mut disk = Disk::new(None);
    let mut session = command(Overrides { kp_hold: Some(number(4.5)), ..Overrides::none() });
    let mut request = session.request();
    let mut answers = 0;
    while !matches!(request, Request::Finish(_)) {
        request = session.step(disk.answer(request));
        answers += 1;
        assert!(answers <= 7);
    }
    assert_eq!(answers, 7);
    assert_eq!(
        request,
        Request::Finish(Ok(Config { kp_hold: number(4.5), ..Config::default() }))
    );
}
