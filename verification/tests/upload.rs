use file_convert::app_data::AppData;
use file_convert::error::SpawnTask;
use file_convert::upload::{convert_step, AbortReason, ConvertAction, ConvertEvent, ConvertState};

fn run(
    data: &AppData,
    file_name: &str,
    format: &str,
    events: Vec<ConvertEvent>,
) -> Vec<ConvertAction> {
    let mut state = ConvertState::Start;
    let mut actions = Vec::new();
    let mut events = events.into_iter();
    let mut event = ConvertEvent::Begin;
    loop {
        let (next, action) = convert_step(data, file_name, format, state, event);
        state = next;
        let over = matches!(action, ConvertAction::Respond(_) | ConvertAction::Abort(_));
        actions.push(action);
        if over {
            assert!(matches!(state, ConvertState::Done));
            return actions;
        }
        event = events.next().expect("an event for every action");
    }
}

#[test]
fn successful_conversion_walks_every_step() {
    let data = AppData::new("/tmp");
    let actions = run(
        &data,
        "song.mp3",
        "wav",
        vec![
            ConvertEvent::BytesRead(true),
            ConvertEvent::NameDrawn(Some(String::from("RND"))),
            ConvertEvent::FolderCreated(true),
            ConvertEvent::InputWritten(true),
            ConvertEvent::ToolRan(Ok(())),
            ConvertEvent::InputRemoved(true),
        ],
    );
    assert_eq!(actions.len(), 7);
    assert!(matches!(actions[0], ConvertAction::ReadBytes));
    assert!(matches!(actions[1], ConvertAction::DrawName));
    assert!(matches!(&actions[2], ConvertAction::CreateFolder(p) if p == "/tmp/RND"));
    assert!(matches!(&actions[3], ConvertAction::WriteInput(p) if p == "/tmp/RND/song.mp3"));
    match &actions[4] {
        ConvertAction::RunTool(c) => {
            assert_eq!(c.program, "ffmpeg");
            assert_eq!(c.task, SpawnTask::Ffmpeg);
        }
        other => panic!("unexpected {:?}", other),
    }
    assert!(matches!(&actions[5], ConvertAction::RemoveInput(p) if p == "/tmp/RND/song.mp3"));
    match &actions[6] {
        ConvertAction::Respond(Ok(p)) => assert_eq!(p, "/tmp/RND/song.wav"),
        other => panic!("unexpected {:?}", other),
    }
}

#[test]
fn same_format_is_refused_before_any_work() {
    let data = AppData::new("/tmp");
    let actions = run(&data, "photo.PNG", "png", vec![]);
    assert_eq!(actions.len(), 1);
    match &actions[0] {
        ConvertAction::Respond(Err(e)) => {
            assert_eq!(e.status, 400);
            assert_eq!(e.message, "err: the same formats");
        }
        other => panic!("unexpected {:?}", other),
    }
}

#[test]
fn name_without_extension_is_given_up() {
    let data = AppData::new("/tmp");
    let actions = run(&data, "photo", "png", vec![]);
    assert!(matches!(actions[0], ConvertAction::Abort(AbortReason::NoExtension)));
}

#[test]
fn unreadable_bytes_are_answered() {
    let data = AppData::new("/tmp");
    let actions = run(&data, "a.txt", "pdf", vec![ConvertEvent::BytesRead(false)]);
    match &actions[1] {
        ConvertAction::Respond(Err(e)) => {
            assert_eq!(e.status, 500);
            assert_eq!(e.message, "no file bytes found");
        }
        other => panic!("unexpected {:?}", other),
    }
}

#[test]
fn unsupported_format_is_given_up_after_writing() {
    let data = AppData::new("t");
    let actions = run(
        &data,
        "a.txt",
        "xyz",
        vec![
            ConvertEvent::BytesRead(true),
            ConvertEvent::NameDrawn(Some(String::from("N"))),
            ConvertEvent::FolderCreated(true),
            ConvertEvent::InputWritten(true),
        ],
    );
    assert_eq!(actions.len(), 5);
    assert!(matches!(actions[4], ConvertAction::Abort(AbortReason::UnsupportedFormat)));
}

#[test]
fn tool_that_cannot_start_is_answered() {
    let data = AppData::new("t");
    let actions = run(
        &data,
        "a.txt",
        "zip",
        vec![
            ConvertEvent::BytesRead(true),
            ConvertEvent::NameDrawn(Some(String::from("N"))),
            ConvertEvent::FolderCreated(true),
            ConvertEvent::InputWritten(true),
            ConvertEvent::ToolRan(Err(String::from("not found"))),
        ],
    );
    match &actions[5] {
        ConvertAction::Respond(Err(e)) => {
            assert_eq!(e.status, 500);
            assert_eq!(e.message, "err while spawn zip task: not found");
        }
        other => panic!("unexpected {:?}", other),
    }
}

#[test]
fn failed_file_work_is_given_up() {
    let data = AppData::new("t");
    let a = run(&data, "a.txt", "pdf", vec![
        ConvertEvent::BytesRead(true),
        ConvertEvent::NameDrawn(None),
    ]);
    assert!(matches!(a[2], ConvertAction::Abort(AbortReason::NoRandomName)));
    let b = run(&data, "a.txt", "pdf", vec![
        ConvertEvent::BytesRead(true),
        ConvertEvent::NameDrawn(Some(String::from("N"))),
        ConvertEvent::FolderCreated(false),
    ]);
    assert!(matches!(b[3], ConvertAction::Abort(AbortReason::FolderNotCreated)));
    let c = run(&data, "a.txt", "pdf", vec![
        ConvertEvent::BytesRead(true),
        ConvertEvent::NameDrawn(Some(String::from("N"))),
        ConvertEvent::FolderCreated(true),
        ConvertEvent::InputWritten(true),
        ConvertEvent::ToolRan(Ok(())),
        ConvertEvent::InputRemoved(false),
    ]);
    assert!(matches!(c[6], ConvertAction::Abort(AbortReason::InputNotRemoved)));
}

#[test]
fn events_out_of_order_are_given_up() {
    let data = AppData::new("t");
    let (state, action) =
        convert_step(&data, "a.txt", "pdf", ConvertState::Start, ConvertEvent::BytesRead(true));
    assert!(matches!(state, ConvertState::Done));
    assert!(matches!(action, ConvertAction::Abort(AbortReason::OutOfOrder)));
}
