use telepirate::bot::{
    after_attempt, correct_usage, getuser, link_is_valid, plan_command, plan_delivery, plan_request, send_method,
    ChatSummary, Command, RunStep, SendMethod, Step, RECONNECT_DELAY_SECS,
};
use telepirate::media::{gif, mp3, mp4, ogg, Downloads, FileType};

#[test]
fn user_names() {
    assert_eq!(getuser(&ChatSummary::Private { username: Some("alice".to_string()) }), "alice");
    assert_eq!(getuser(&ChatSummary::Private { username: None }), "noname");
    assert_eq!(getuser(&ChatSummary::Other), "");
}

#[test]
fn links() {
    assert!(!link_is_valid(""));
    assert!(link_is_valid("x"));
    assert!(link_is_valid("https://youtu.be/abc"));
}

#[test]
fn usage_reminders() {
    assert_eq!(correct_usage(FileType::Mp3), "Correct usage:\n\n/mp3 https://valid_mp3_url");
    assert_eq!(correct_usage(FileType::Mp4), "Correct usage:\n\n/mp4 https://valid_mp4_url");
    assert_eq!(correct_usage(FileType::Voice), "Correct usage:\n\n/voice https://valid_audio_url");
    assert_eq!(correct_usage(FileType::Gif), "Correct usage:\n\n/gif https://valid_video_url");
}

#[test]
fn send_methods() {
    assert_eq!(send_method(FileType::Mp3), SendMethod::Audio);
    assert_eq!(send_method(FileType::Mp4), SendMethod::Video);
    assert_eq!(send_method(FileType::Voice), SendMethod::Voice);
    assert_eq!(send_method(FileType::Gif), SendMethod::Animation);
}

#[test]
fn request_with_link() {
    let steps = plan_request(FileType::Voice, "https://a/b".to_string());
    assert_eq!(
        steps,
        vec![
            Step::RecordRequest,
            Step::SendText("Please wait ...".to_string()),
            Step::Download(ogg("https://a/b".to_string())),
        ]
    );
}

#[test]
fn request_without_link() {
    let steps = plan_request(FileType::Gif, String::new());
    assert_eq!(
        steps,
        vec![
            Step::RecordRequest,
            Step::SendText("Correct usage:\n\n/gif https://valid_video_url".to_string()),
        ]
    );
    assert!(!steps.iter().any(|s| matches!(s, Step::Download(_))));
}

#[test]
fn commands() {
    assert_eq!(plan_command(Command::Start), vec![Step::SendHelp, Step::RecordRequest]);
    assert_eq!(plan_command(Command::Help), vec![Step::SendHelp, Step::RecordRequest]);
    assert_eq!(plan_command(Command::C), vec![Step::RecordRequest, Step::PurgeTrash]);
    assert_eq!(
        plan_command(Command::Mp3("l".to_string())),
        vec![
            Step::RecordRequest,
            Step::SendText("Please wait ...".to_string()),
            Step::Download(mp3("l".to_string())),
        ]
    );
    assert_eq!(
        plan_command(Command::Mp4("l".to_string()))[2],
        Step::Download(mp4("l".to_string()))
    );
    assert_eq!(
        plan_command(Command::Voice("l".to_string()))[2],
        Step::Download(ogg("l".to_string()))
    );
    assert_eq!(
        plan_command(Command::Gif("l".to_string()))[2],
        Step::Download(gif("l".to_string()))
    );
    assert_eq!(
        plan_command(Command::Mp4(String::new())),
        vec![
            Step::RecordRequest,
            Step::SendText("Correct usage:\n\n/mp4 https://valid_mp4_url".to_string()),
        ]
    );
}

#[test]
fn delivery_of_error() {
    let steps = plan_delivery(FileType::Mp3, Err("ERROR: unsupported URL".to_string()));
    assert_eq!(steps, vec![Step::SendText("ERROR: unsupported URL".to_string())]);
}

#[test]
fn delivery_without_files() {
    let d = Downloads { filetype: FileType::Mp4, paths: vec![], folder: "./downloads/x".to_string() };
    let steps = plan_delivery(FileType::Mp4, Ok(d));
    assert_eq!(
        steps,
        vec![Step::SendText(
            "This is an error. For some reason I haven't downloaded any files.".to_string()
        )]
    );
}

#[test]
fn delivery_of_files() {
    let d = Downloads {
        filetype: FileType::Voice,
        paths: vec!["./downloads/x/a.ogg".to_string(), "./downloads/x/b.ogg".to_string()],
        folder: "./downloads/x".to_string(),
    };
    let steps = plan_delivery(FileType::Voice, Ok(d));
    assert_eq!(
        steps,
        vec![
            Step::SendFile(SendMethod::Voice, "./downloads/x/a.ogg".to_string()),
            Step::SendFile(SendMethod::Voice, "./downloads/x/b.ogg".to_string()),
            Step::PurgeTrash,
            Step::RemoveFolder("./downloads/x".to_string()),
        ]
    );
}

#[test]
fn reconnect_steps() {
    assert_eq!(RECONNECT_DELAY_SECS, 30);
    assert_eq!(
        after_attempt(true),
        vec![RunStep::OpenDatabase, RunStep::Dispatch, RunStep::Wait(30)]
    );
    assert_eq!(after_attempt(false), vec![RunStep::Wait(30)]);
}
