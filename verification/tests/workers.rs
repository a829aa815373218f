use voechoal::audio::database::{Document, FSDatabase};
use voechoal::audio::player::Player;
use voechoal::audio::StreamControlCommand;
use voechoal::background::job::{classify, BackgroundJob};
use voechoal::background::procedure::BackgroundProcedure;
use voechoal::background::{Disconnected, Polled};
use voechoal::controls::{session_commands, AudioCtrls};
use voechoal::sharedref::SharedMutRef;

use std::sync::{Arc, Mutex};

#[test]
fn it_works_procedure() {
    let (job, arg) = BackgroundProcedure::<_, i8>::channel(1);

    job.trigger(0).unwrap();
    job.trigger(1).unwrap();
    job.trigger(2).unwrap();

    let command = arg.rx.recv().unwrap();
    assert_eq!(command, 0);

    let command = arg.rx.recv().unwrap();
    assert_eq!(command, 1);

    let command = arg.rx.recv().unwrap();
    assert_eq!(command, 2);

    *arg.state.lock().unwrap() = 420;

    let s = *job.state.lock().unwrap();
    assert_eq!(s, 420);
}

#[test]
fn it_works_job() {
    let (job, arg) = BackgroundJob::<_, i8, char>::channel(1);

    job.trigger(0).unwrap();
    job.trigger(1).unwrap();
    job.trigger(2).unwrap();

    let command = arg.rx.recv().unwrap();
    assert_eq!(command, 0);

    let command = arg.rx.recv().unwrap();
    assert_eq!(command, 1);

    arg.tx.send('a').unwrap();

    let command = arg.rx.recv().unwrap();
    assert_eq!(command, 2);

    arg.tx.send('b').unwrap();

    *arg.state.lock().unwrap() = 420;

    let r = job.wait_for_response().unwrap();
    assert_eq!(r, 'a');

    while let Ok(r) = job.try_response() {
        assert_eq!(r, 'b');
    }

    job.try_response().unwrap_err();

    let s = *job.state.lock().unwrap();
    assert_eq!(s, 420);
}

#[test]
fn trigger_fails_once_the_worker_is_gone() {
    let (job, arg) = BackgroundProcedure::<(), String>::channel(());
    assert_eq!(job.trigger("one".to_string()), Ok(()));
    drop(arg);
    assert_eq!(job.trigger("two".to_string()), Err(Disconnected("two".to_string())));
}

#[test]
fn try_command_tells_nothing_from_disconnected() {
    let (job, arg) = BackgroundProcedure::<(), u8>::channel(());
    assert_eq!(arg.try_command(), Err(voechoal::background::procedure::TryResponseError::Nothing));
    job.trigger(7).unwrap();
    job.trigger(8).unwrap();
    assert_eq!(arg.try_command(), Ok(7));
    drop(job);
    assert_eq!(arg.try_command(), Ok(8));
    assert_eq!(arg.try_command(), Err(voechoal::background::procedure::TryResponseError::Disconnected));
    assert_eq!(voechoal::background::procedure::TryResponseError::Nothing.message(), "no response yet");
    assert_eq!(voechoal::background::procedure::TryResponseError::Disconnected.message(), "channel is disconnected");
}

#[test]
fn try_response_tells_nothing_from_disconnected() {
    let (job, arg) = BackgroundJob::<(), u8, u8>::channel(());
    assert_eq!(job.try_response(), Err(voechoal::background::job::TryResponseError::Nothing));
    arg.tx.send(5).unwrap();
    assert_eq!(job.try_response(), Ok(5));
    assert_eq!(job.try_response(), Err(voechoal::background::job::TryResponseError::Nothing));
    arg.tx.send(6).unwrap();
    drop(arg);
    assert_eq!(job.try_response(), Ok(6));
    assert_eq!(job.try_response(), Err(voechoal::background::job::TryResponseError::Disconnected));
    assert!(job.wait_for_response().is_err());
    assert_eq!(job.trigger(1), Err(Disconnected(1)));
    assert_eq!(voechoal::background::job::TryResponseError::Nothing.message(), "no response yet");
    assert_eq!(voechoal::background::job::TryResponseError::Disconnected.message(), "channel is disconnected");
}

#[test]
fn classify_keeps_the_response() {
    assert_eq!(classify(Polled::Got('x')), Ok('x'));
    assert_eq!(classify::<char>(Polled::Empty), Err(voechoal::background::job::TryResponseError::Nothing));
    assert_eq!(classify::<char>(Polled::Disconnected), Err(voechoal::background::job::TryResponseError::Disconnected));
}

#[test]
fn classify_keeps_the_command() {
    assert_eq!(voechoal::background::procedure::classify(Polled::Got(3u8)), Ok(3));
    assert_eq!(
        voechoal::background::procedure::classify::<u8>(Polled::Empty),
        Err(voechoal::background::procedure::TryResponseError::Nothing)
    );
    assert_eq!(
        voechoal::background::procedure::classify::<u8>(Polled::Disconnected),
        Err(voechoal::background::procedure::TryResponseError::Disconnected)
    );
}

#[test]
fn shared_ref_hands_out_the_same_lock() {
    let shared = SharedMutRef::<Option<String>>::new(None);
    let other = shared.new_ref();
    *shared.lock().unwrap() = Some("r1".to_string());
    assert_eq!(*other.lock().unwrap(), Some("r1".to_string()));
    assert!(Arc::ptr_eq(&other, &shared));
    assert_eq!(Arc::strong_count(&other), 2);
}

#[test]
fn session_commands_share_the_id() {
    let (to_recorder, to_listener) = session_commands("r1".to_string());
    assert_eq!(to_recorder, StreamControlCommand::Play("r1".to_string()));
    assert_eq!(to_listener, StreamControlCommand::Play("r1".to_string()));
}

#[test]
fn record_start_sends_one_new_id_to_recorder_and_listener() {
    let (player, _player_arg) = BackgroundProcedure::channel(Player::new());
    let (ecouter, ecouter_arg) = BackgroundProcedure::<Vec<f32>, StreamControlCommand>::channel(vec![]);
    let (sttlistener, stt_arg) = BackgroundProcedure::channel(());
    let db = Arc::new(Mutex::new(FSDatabase::new("d".to_string(), "f".to_string(), Document::Missing)));
    let ctrls = AudioCtrls { player, ecouter, sttlistener, db };

    let first = ctrls.record_start().unwrap();
    assert_eq!(ecouter_arg.try_command(), Ok(StreamControlCommand::Play(first.clone())));
    assert_eq!(stt_arg.try_command(), Ok(StreamControlCommand::Play(first.clone())));
    assert!(cuid2::is_cuid2(&first));
    assert!(first.len() >= 2 && first.len() <= 24);
    assert!(first.chars().next().unwrap().is_ascii_lowercase());
    assert!(first.chars().all(|c| c.is_ascii_digit() || c.is_ascii_lowercase()));

    let second = ctrls.record_start().unwrap();
    assert_ne!(first, second);

    ctrls.record_pause().unwrap();
    assert_eq!(ecouter_arg.try_command(), Ok(StreamControlCommand::Play(second.clone())));
    assert_eq!(ecouter_arg.try_command(), Ok(StreamControlCommand::Pause(None)));
    assert_eq!(stt_arg.try_command(), Ok(StreamControlCommand::Play(second)));
    assert_eq!(stt_arg.try_command(), Ok(StreamControlCommand::Pause(None)));
}

#[test]
fn player_requests_name_the_recording() {
    let (player, player_arg) = BackgroundProcedure::channel(Player::new());
    let (ecouter, _ecouter_arg) = BackgroundProcedure::<Vec<f32>, StreamControlCommand>::channel(vec![]);
    let (sttlistener, _stt_arg) = BackgroundProcedure::channel(());
    let db = Arc::new(Mutex::new(FSDatabase::new("d".to_string(), "f".to_string(), Document::Missing)));
    let ctrls = AudioCtrls { player, ecouter, sttlistener, db };

    ctrls.player_start("a".to_string()).unwrap();
    ctrls.player_pause("a".to_string()).unwrap();
    assert_eq!(player_arg.try_command(), Ok(StreamControlCommand::Play("a".to_string())));
    assert_eq!(player_arg.try_command(), Ok(StreamControlCommand::Pause(Some("a".to_string()))));
    drop(player_arg);
    assert_eq!(
        ctrls.player_start("b".to_string()),
        Err(Disconnected(StreamControlCommand::Play("b".to_string())))
    );
    assert_eq!(
        ctrls.player_pause("b".to_string()),
        Err(Disconnected(StreamControlCommand::Pause(Some("b".to_string()))))
    );
}

#[test]
fn record_start_stops_at_the_pipeline_that_is_gone() {
    let (player, _player_arg) = BackgroundProcedure::channel(Player::new());
    let (ecouter, ecouter_arg) = BackgroundProcedure::<Vec<f32>, StreamControlCommand>::channel(vec![]);
    let (sttlistener, stt_arg) = BackgroundProcedure::channel(());
    let db = Arc::new(Mutex::new(FSDatabase::new("d".to_string(), "f".to_string(), Document::Missing)));
    let ctrls = AudioCtrls { player, ecouter, sttlistener, db };

    drop(ecouter_arg);
    match ctrls.record_start() {
        Err(Disconnected(StreamControlCommand::Play(id))) => assert!(cuid2::is_cuid2(id)),
        _ => panic!("the recorder is gone"),
    }
    assert!(stt_arg.try_command().is_err());
    assert_eq!(ctrls.record_pause(), Err(Disconnected(StreamControlCommand::Pause(None))));
    assert!(stt_arg.try_command().is_err());
}
