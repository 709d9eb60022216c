use archipelago_bridge::factory::{advance, next_action, FactoryAction, FactoryState};
use archipelago_bridge::tasks::{
    reader_continues, reader_step, writer_continues, writer_step, ReadOutcome, ReaderAction,
    WriterAction,
};

#[test]
fn reader_forwards_skips_and_stops() {
    assert!(matches!(reader_step(ReadOutcome::Message(4)), ReaderAction::Forward(4)));
    assert!(matches!(reader_step(ReadOutcome::<u8>::Empty), ReaderAction::Skip));
    assert!(matches!(reader_step(ReadOutcome::<u8>::Failed), ReaderAction::Stop));
    assert!(reader_continues(true));
    assert!(!reader_continues(false));
}

#[test]
fn writer_writes_until_channel_closes() {
    assert!(matches!(writer_step(Some("c")), WriterAction::Write("c")));
    assert!(matches!(writer_step(None::<u8>), WriterAction::Shutdown));
    assert!(writer_continues(true));
    assert!(!writer_continues(false));
}

#[test]
fn connection_sequence_reaches_ready() {
    let mut state = FactoryState::Connecting;
    let expected = [
        FactoryAction::OpenTransport,
        FactoryAction::AwaitHandshake,
        FactoryAction::SplitConnection,
        FactoryAction::SpawnTasks,
    ];
    for action in expected {
        assert_eq!(next_action(state), action);
        state = advance(state, true);
    }
    assert_eq!(state, FactoryState::Ready);
    assert_eq!(next_action(state), FactoryAction::Finish);
    assert_eq!(advance(state, false), FactoryState::Ready);
}

#[test]
fn connection_failure_is_terminal() {
    assert_eq!(advance(FactoryState::Connecting, false), FactoryState::Failed);
    let state = advance(FactoryState::Connecting, true);
    assert_eq!(state, FactoryState::Handshaking);
    let state = advance(state, false);
    assert_eq!(state, FactoryState::Failed);
    assert_eq!(advance(state, true), FactoryState::Failed);
    assert_eq!(next_action(state), FactoryAction::Finish);
}
