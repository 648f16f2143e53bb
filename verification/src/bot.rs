//! The bot's answer to each chat command, as a list of steps that the
//! caller performs in order, stopping at the first one that fails.
use vstd::prelude::*;
use crate::media::{
    download_args, file_type_name, job_for, job_text, DownloadJob, Downloads, FileType,
};

verus! {

/// The chat commands of the bot.
#[derive(Debug, Clone, PartialEq, Eq)]
pub enum Command {
    /// `/start`: greet with the list of commands.
    Start,
    /// `/help`: the list of commands.
    Help,
    /// `/mp3 <link>`: audio.
    Mp3(String),
    /// `/mp4 <link>`: video.
    Mp4(String),
    /// `/voice <link>`: audio as a voice message.
    Voice(String),
    /// `/gif <link>`: video as an animation.
    Gif(String),
    /// `/c`: delete the messages the bot remembers in this chat.
    C,
}

/// The command (without `/`) that asks for media of each kind.
pub open spec fn command_name(ft: FileType) -> Seq<char> {
    match ft {
        FileType::Mp3 => "mp3"@,
        FileType::Mp4 => "mp4"@,
        FileType::Voice => "voice"@,
        FileType::Gif => "gif"@,
    }
}

/// How a file of each kind is sent to the chat.
#[derive(Debug, Clone, Copy, PartialEq, Eq, Structural)]
pub enum SendMethod {
    Audio,
    Video,
    Voice,
    Animation,
}

pub open spec fn send_method_of(ft: FileType) -> SendMethod {
    match ft {
        FileType::Mp3 => SendMethod::Audio,
        FileType::Mp4 => SendMethod::Video,
        FileType::Voice => SendMethod::Voice,
        FileType::Gif => SendMethod::Animation,
    }
}

/// How a file of kind `ft` is sent to the chat.
pub fn send_method(ft: FileType) -> (r: SendMethod)
    ensures
        r == send_method_of(ft),
{
    match ft {
        FileType::Mp3 => SendMethod::Audio,
        FileType::Mp4 => SendMethod::Video,
        FileType::Voice => SendMethod::Voice,
        FileType::Gif => SendMethod::Animation,
    }
}

/// What the bot knows of the chat a message came from.
#[derive(Debug, Clone, PartialEq, Eq)]
pub enum ChatSummary {
    /// A private chat, with the other user's username if they have one.
    Private { username: Option<String> },
    /// A group, supergroup or channel.
    Other,
}

/// The name under which a chat's user is logged.
pub open spec fn user_label(chat: ChatSummary) -> Seq<char> {
    match chat {
        ChatSummary::Private { username: Some(name) } => name@,
        ChatSummary::Private { username: None } => "noname"@,
        ChatSummary::Other => Seq::empty(),
    }
}

/// The name under which a chat's user is logged: the username in a private
/// chat, `noname` for a private chat without one, empty for other chats.
pub fn getuser(chat: &ChatSummary) -> (r: String)
    ensures
        r@ == user_label(*chat),
{
    match chat {
        ChatSummary::Private { username: Some(name) } => name.clone(),
        ChatSummary::Private { username: None } => String::from_str("noname"),
        ChatSummary::Other => String::new(),
    }
}

/// A link is taken when it is not empty.
pub fn link_is_valid(link: &str) -> (r: bool)
    ensures
        r == (link@.len() != 0),
{
    !link.is_empty()
}

/// The reminder sent for a media command without a link.
pub open spec fn usage_text(ft: FileType) -> Seq<char> {
    match ft {
        FileType::Voice => "Correct usage:\n\n/voice https://valid_audio_url"@,
        FileType::Gif => "Correct usage:\n\n/"@ + file_type_name(ft) + " https://valid_video_url"@,
        _ => "Correct usage:\n\n/"@ + file_type_name(ft) + " https://valid_"@ + file_type_name(ft)
            + "_url"@,
    }
}

/// The reminder sent for a media command without a link.
pub fn correct_usage(ft: FileType) -> (r: String)
    ensures
        r@ == usage_text(ft),
{
    match ft {
        FileType::Voice => String::from_str("Correct usage:\n\n/voice https://valid_audio_url"),
        FileType::Gif => {
            let mut s = String::from_str("Correct usage:\n\n/");
            s.append(ft.as_str());
            s.append(" https://valid_video_url");
            s
        },
        _ => {
            let mut s = String::from_str("Correct usage:\n\n/");
            s.append(ft.as_str());
            s.append(" https://valid_");
            s.append(ft.as_str());
            s.append("_url");
            s
        },
    }
}

/// Sent while a download runs.
pub open spec fn wait_text() -> Seq<char> {
    "Please wait ..."@
}

/// Sent when a download ends without a file to send.
pub open spec fn no_files_text() -> Seq<char> {
    "This is an error. For some reason I haven't downloaded any files."@
}

/// One thing the bot does for a command.  Every message the bot sends as
/// text (`SendText`, `SendHelp`) is remembered with the user's command
/// (`RecordRequest`), so that `/c` deletes them all; files are not.
#[derive(Debug, Clone, PartialEq, Eq)]
pub enum Step {
    /// Remember the user's command message, to be deleted by `/c`.
    RecordRequest,
    /// Send the list of commands and remember the message.
    SendHelp,
    /// Send a text and remember the message.
    SendText(String),
    /// Run the download; what it gives decides the next steps.
    Download(DownloadJob),
    /// Send a downloaded file.
    SendFile(SendMethod, String),
    /// Delete the remembered messages of the chat and forget them.
    PurgeTrash,
    /// Remove a download's folder.
    RemoveFolder(String),
}

/// A step as plain values.
pub enum StepText {
    RecordRequest,
    SendHelp,
    SendText(Seq<char>),
    Download((FileType, Seq<char>, Seq<(Seq<char>, Option<Seq<char>>)>)),
    SendFile(SendMethod, Seq<char>),
    PurgeTrash,
    RemoveFolder(Seq<char>),
}

impl View for Step {
    type V = StepText;

    open spec fn view(&self) -> StepText {
        match *self {
            Step::RecordRequest => StepText::RecordRequest,
            Step::SendHelp => StepText::SendHelp,
            Step::SendText(t) => StepText::SendText(t@),
            Step::Download(job) => StepText::Download(job@),
            Step::SendFile(m, p) => StepText::SendFile(m, p@),
            Step::PurgeTrash => StepText::PurgeTrash,
            Step::RemoveFolder(f) => StepText::RemoveFolder(f@),
        }
    }
}

pub open spec fn step_texts(steps: Seq<Step>) -> Seq<StepText> {
    steps.map_values(|s: Step| s@)
}

/// The steps for a media command of kind `ft` with `link`: remember the
/// command; with a link, say that the download runs and run it; without
/// one, remind the user of the command's form.
pub open spec fn request_plan(ft: FileType, link: Seq<char>) -> Seq<StepText> {
    if link.len() != 0 {
        seq![
            StepText::RecordRequest,
            StepText::SendText(wait_text()),
            StepText::Download(job_text(ft, link)),
        ]
    } else {
        seq![StepText::RecordRequest, StepText::SendText(usage_text(ft))]
    }
}

/// The steps for a media command of kind `ft` with `link`.
pub fn plan_request(ft: FileType, link: String) -> (r: Vec<Step>)
    ensures
        step_texts(r@) == request_plan(ft, link@),
{
    if link_is_valid(link.as_str()) {
        let v = vec![
            Step::RecordRequest,
            Step::SendText(String::from_str("Please wait ...")),
            Step::Download(job_for(ft, link)),
        ];
        assert(step_texts(v@) =~= request_plan(ft, link@));
        v
    } else {
        let v = vec![Step::RecordRequest, Step::SendText(correct_usage(ft))];
        assert(step_texts(v@) =~= request_plan(ft, link@));
        v
    }
}

/// The steps for each command.
pub open spec fn command_plan(cmd: Command) -> Seq<StepText> {
    match cmd {
        Command::Start => seq![StepText::SendHelp, StepText::RecordRequest],
        Command::Help => seq![StepText::SendHelp, StepText::RecordRequest],
        Command::Mp3(link) => request_plan(FileType::Mp3, link@),
        Command::Mp4(link) => request_plan(FileType::Mp4, link@),
        Command::Voice(link) => request_plan(FileType::Voice, link@),
        Command::Gif(link) => request_plan(FileType::Gif, link@),
        Command::C => seq![StepText::RecordRequest, StepText::PurgeTrash],
    }
}

/// The steps for a command.
pub fn plan_command(cmd: Command) -> (r: Vec<Step>)
    ensures
        step_texts(r@) == command_plan(cmd),
{
    match cmd {
        Command::Start | Command::Help => {
            let v = vec![Step::SendHelp, Step::RecordRequest];
            assert(step_texts(v@) =~= command_plan(cmd));
            v
        },
        Command::Mp3(link) => plan_request(FileType::Mp3, link),
        Command::Mp4(link) => plan_request(FileType::Mp4, link),
        Command::Voice(link) => plan_request(FileType::Voice, link),
        Command::Gif(link) => plan_request(FileType::Gif, link),
        Command::C => {
            let v = vec![Step::RecordRequest, Step::PurgeTrash];
            assert(step_texts(v@) =~= command_plan(cmd));
            v
        },
    }
}

/// The steps after a download of kind `ft`: its error is sent as text; a
/// download without files is reported; otherwise each file is sent, in
/// order and with the method of the kind, then the remembered messages are
/// deleted and the download's folder removed.
pub open spec fn delivery_plan(
    ft: FileType,
    outcome: Result<(FileType, Seq<Seq<char>>, Seq<char>), Seq<char>>,
) -> Seq<StepText> {
    match outcome {
        Err(e) => seq![StepText::SendText(e)],
        Ok((_, paths, folder)) => if paths.len() == 0 {
            seq![StepText::SendText(no_files_text())]
        } else {
            paths.map_values(|p: Seq<char>| StepText::SendFile(send_method_of(ft), p)) + seq![
                StepText::PurgeTrash,
                StepText::RemoveFolder(folder),
            ]
        },
    }
}

pub open spec fn outcome_text(outcome: Result<Downloads, String>) -> Result<
    (FileType, Seq<Seq<char>>, Seq<char>),
    Seq<char>,
> {
    match outcome {
        Ok(d) => Ok(d@),
        Err(e) => Err(e@),
    }
}

/// The steps after a download of kind `ft` with `outcome`.
pub fn plan_delivery(ft: FileType, outcome: Result<Downloads, String>) -> (r: Vec<Step>)
    ensures
        step_texts(r@) == delivery_plan(ft, outcome_text(outcome)),
{
    match outcome {
        Err(e) => {
            let v = vec![Step::SendText(e)];
            assert(step_texts(v@) =~= delivery_plan(ft, outcome_text(outcome)));
            v
        },
        Ok(d) => {
            if d.is_empty() {
                let v = vec![Step::SendText(String::from_str(
                    "This is an error. For some reason I haven't downloaded any files.",
                ))];
                assert(step_texts(v@) =~= delivery_plan(ft, outcome_text(outcome)));
                return v;
            }
            let method = send_method(ft);
            let ghost paths = d@.1;
            let mut v: Vec<Step> = Vec::new();
            let mut i: usize = 0;
            while i < d.paths.len()
                invariant
                    i <= d.paths@.len(),
                    paths == d.paths@.map_values(|p: String| p@),
                    method == send_method_of(ft),
                    v@.len() == i,
                    forall|j: int|
                        0 <= j < i ==> #[trigger] v@[j]@ == StepText::SendFile(
                            send_method_of(ft),
                            paths[j],
                        ),
                decreases d.paths@.len() - i,
            {
                let p = d.paths[i].clone();
                v.push(Step::SendFile(method, p));
                proof {
                    assert(paths[i as int] == d.paths@[i as int]@);
                }
                i = i + 1;
            }
            v.push(Step::PurgeTrash);
            v.push(Step::RemoveFolder(d.folder));
            assert(step_texts(v@) =~= delivery_plan(ft, outcome_text(outcome)));
            v
        },
    }
}

/// How long the bot waits before it connects again, in seconds.
pub const RECONNECT_DELAY_SECS: u32 = 30;

/// What the bot does after an attempt to connect to Telegram.
#[derive(Debug, Clone, Copy, PartialEq, Eq, Structural)]
pub enum RunStep {
    /// Open the database of remembered messages.
    OpenDatabase,
    /// Answer updates until the connection ends.
    Dispatch,
    /// Wait this many seconds before the next attempt.
    Wait(u32),
}

/// After a successful attempt the bot opens its database and answers
/// updates until the connection ends; either way it then waits before it
/// connects again.
pub open spec fn run_plan(connected: bool) -> Seq<RunStep> {
    if connected {
        seq![RunStep::OpenDatabase, RunStep::Dispatch, RunStep::Wait(RECONNECT_DELAY_SECS)]
    } else {
        seq![RunStep::Wait(RECONNECT_DELAY_SECS)]
    }
}

/// What the bot does after an attempt to connect to Telegram.
pub fn after_attempt(connected: bool) -> (r: Vec<RunStep>)
    ensures
        r@ == run_plan(connected),
{
    if connected {
        vec![RunStep::OpenDatabase, RunStep::Dispatch, RunStep::Wait(RECONNECT_DELAY_SECS)]
    } else {
        vec![RunStep::Wait(RECONNECT_DELAY_SECS)]
    }
}

// ---------------------------------------------------------------------------
// laws

/// A download with files delivers each of them once, in the order found
/// and with the method of the requested kind; only then are the remembered
/// messages deleted, and the download's own folder is removed last.
pub proof fn law_files_delivered_in_order(
    ft: FileType,
    filetype: FileType,
    paths: Seq<Seq<char>>,
    folder: Seq<char>,
)
    requires
        paths.len() > 0,
    ensures
        ({
            let plan = delivery_plan(ft, Ok((filetype, paths, folder)));
            &&& plan.len() == paths.len() + 2
            &&& forall|i: int|
                0 <= i < paths.len() ==> #[trigger] plan[i] == StepText::SendFile(
                    send_method_of(ft),
                    paths[i],
                )
            &&& plan[paths.len() as int] == StepText::PurgeTrash
            &&& plan[paths.len() as int + 1] == StepText::RemoveFolder(folder)
        }),
{
}

/// The text a usage reminder opens with: the command as the user types it.
pub open spec fn usage_prefix(ft: FileType) -> Seq<char> {
    "Correct usage:\n\n/"@ + command_name(ft) + " "@
}

/// A media command without a link downloads nothing: the bot remembers the
/// command and answers with a reminder that opens with that very command.
/// With a link it downloads exactly once, that link, as that kind.
pub proof fn law_link_decides_download(ft: FileType, link: Seq<char>)
    ensures
        link.len() == 0 ==> forall|i: int|
            0 <= i < request_plan(ft, link).len() ==> !(#[trigger] request_plan(ft, link)[i] is Download),
        link.len() == 0 ==> request_plan(ft, link).contains(StepText::SendText(usage_text(ft))),
        usage_text(ft).len() >= usage_prefix(ft).len(),
        usage_text(ft).subrange(0, usage_prefix(ft).len() as int) == usage_prefix(ft),
        link.len() != 0 ==> request_plan(ft, link).last() == StepText::Download(job_text(ft, link)),
        link.len() != 0 ==> forall|i: int|
            0 <= i < request_plan(ft, link).len() - 1 ==> !(#[trigger] request_plan(ft, link)[i] is Download),
{
    let plan = request_plan(ft, link);
    if link.len() == 0 {
        assert(plan[1] == StepText::SendText(usage_text(ft)));
    }
    reveal_strlit("Correct usage:\n\n/");
    reveal_strlit(" ");
    reveal_strlit(" https://valid_");
    reveal_strlit(" https://valid_video_url");
    reveal_strlit("Correct usage:\n\n/voice https://valid_audio_url");
    reveal_strlit("mp3");
    reveal_strlit("mp4");
    reveal_strlit("voice");
    reveal_strlit("gif");
    reveal_strlit("opus");
    let u = usage_text(ft);
    let p = usage_prefix(ft);
    assert(u.subrange(0, p.len() as int) =~= p);
}

/// The plan remembers the user's command exactly once.
pub open spec fn records_request_once(plan: Seq<StepText>) -> bool {
    exists|i: int|
        0 <= i < plan.len() && #[trigger] plan[i] is RecordRequest && forall|j: int|
            0 <= j < plan.len() && j != i ==> !(#[trigger] plan[j] is RecordRequest)
}

/// Every command message is remembered exactly once, so `/c` can delete it;
/// for `/c` itself it is remembered before the purge, so it goes too.
pub proof fn law_every_command_recorded(cmd: Command)
    ensures
        records_request_once(command_plan(cmd)),
        command_plan(cmd)[0] is RecordRequest || command_plan(cmd)[1] is RecordRequest,
        cmd is C ==> command_plan(cmd) == seq![StepText::RecordRequest, StepText::PurgeTrash],
{
    let plan = command_plan(cmd);
    if plan[0] is RecordRequest {
        assert(plan[0] is RecordRequest && forall|j: int|
            0 <= j < plan.len() && j != 0 ==> !(#[trigger] plan[j] is RecordRequest));
    } else {
        assert(plan[1] is RecordRequest && forall|j: int|
            0 <= j < plan.len() && j != 1 ==> !(#[trigger] plan[j] is RecordRequest));
    }
}

/// The steps after a download remember nothing more of the user: the
/// command was remembered before the download, and sent files are never
/// remembered; what they send as text is remembered as it is sent.
pub proof fn law_delivery_records_nothing(
    ft: FileType,
    outcome: Result<(FileType, Seq<Seq<char>>, Seq<char>), Seq<char>>,
)
    ensures
        forall|i: int|
            0 <= i < delivery_plan(ft, outcome).len() ==> !(#[trigger] delivery_plan(
                ft,
                outcome,
            )[i] is RecordRequest),
{
    let plan = delivery_plan(ft, outcome);
    assert forall|i: int| 0 <= i < plan.len() implies !(#[trigger] plan[i] is RecordRequest) by {
        match outcome {
            Ok((_, paths, folder)) => {
                if paths.len() > 0 && i < paths.len() {
                    assert(plan[i] == StepText::SendFile(send_method_of(ft), paths[i]));
                }
            },
            Err(_) => {},
        }
    }
}

// ---------------------------------------------------------------------------
// what each answer is for, stated over all inputs

/// The kind of media each media command asks for.
pub open spec fn command_kind(cmd: Command) -> Option<(FileType, Seq<char>)> {
    match cmd {
        Command::Mp3(l) => Some((FileType::Mp3, l@)),
        Command::Mp4(l) => Some((FileType::Mp4, l@)),
        Command::Voice(l) => Some((FileType::Voice, l@)),
        Command::Gif(l) => Some((FileType::Gif, l@)),
        _ => None,
    }
}

/// Every media command is answered for its own kind: `/mp3` with mp3
/// audio, `/mp4` with mp4 video, `/voice` with opus audio, `/gif` with an
/// mp4 animation; with a link the last step downloads exactly that link as
/// that kind.  `/start` and `/help` send the list of commands, `/c`
/// purges the chat.
pub proof fn law_command_answers_its_kind(cmd: Command)
    ensures
        command_kind(cmd) matches Some((ft, link)) ==> command_plan(cmd) == request_plan(ft, link),
        command_kind(cmd) matches Some((ft, link)) ==> (link.len() != 0 <==> command_plan(cmd).last()
            == StepText::Download((ft, link, download_args(ft)))),
        cmd matches Command::Mp3(l) ==> command_plan(cmd) == request_plan(FileType::Mp3, l@),
        cmd matches Command::Mp4(l) ==> command_plan(cmd) == request_plan(FileType::Mp4, l@),
        cmd matches Command::Voice(l) ==> command_plan(cmd) == request_plan(FileType::Voice, l@),
        cmd matches Command::Gif(l) ==> command_plan(cmd) == request_plan(FileType::Gif, l@),
        cmd is Start || cmd is Help ==> command_plan(cmd) == seq![
            StepText::SendHelp,
            StepText::RecordRequest,
        ],
        cmd is C ==> command_plan(cmd) == seq![StepText::RecordRequest, StepText::PurgeTrash],
{
    match cmd {
        Command::Mp3(l) => {
            lemma_request_plan_ends(FileType::Mp3, l@);
        },
        Command::Mp4(l) => {
            lemma_request_plan_ends(FileType::Mp4, l@);
        },
        Command::Voice(l) => {
            lemma_request_plan_ends(FileType::Voice, l@);
        },
        Command::Gif(l) => {
            lemma_request_plan_ends(FileType::Gif, l@);
        },
        _ => {},
    }
}

proof fn lemma_request_plan_ends(ft: FileType, link: Seq<char>)
    ensures
        link.len() != 0 <==> request_plan(ft, link).last() == StepText::Download(
            (ft, link, download_args(ft)),
        ),
{
}

/// With a link, the bot remembers the command, says "Please wait ..." and
/// downloads that link as the asked kind with that kind's arguments;
/// without one it remembers the command and sends the kind's reminder.
pub proof fn law_request_answer(ft: FileType, link: Seq<char>)
    ensures
        link.len() != 0 ==> request_plan(ft, link) == seq![
            StepText::RecordRequest,
            StepText::SendText("Please wait ..."@),
            StepText::Download((ft, link, download_args(ft))),
        ],
        link.len() == 0 ==> request_plan(ft, link) == seq![
            StepText::RecordRequest,
            StepText::SendText(usage_text(ft)),
        ],
{
}

/// The reminder of each media command shows the command with a sample link.
pub proof fn law_usage_texts()
    ensures
        usage_text(FileType::Mp3) == "Correct usage:\n\n/mp3 https://valid_mp3_url"@,
        usage_text(FileType::Mp4) == "Correct usage:\n\n/mp4 https://valid_mp4_url"@,
        usage_text(FileType::Voice) == "Correct usage:\n\n/voice https://valid_audio_url"@,
        usage_text(FileType::Gif) == "Correct usage:\n\n/gif https://valid_video_url"@,
{
    reveal_strlit("Correct usage:\n\n/");
    reveal_strlit(" https://valid_");
    reveal_strlit("_url");
    reveal_strlit(" https://valid_video_url");
    reveal_strlit("mp3");
    reveal_strlit("mp4");
    reveal_strlit("gif");
    reveal_strlit("Correct usage:\n\n/mp3 https://valid_mp3_url");
    reveal_strlit("Correct usage:\n\n/mp4 https://valid_mp4_url");
    reveal_strlit("Correct usage:\n\n/gif https://valid_video_url");
    assert(usage_text(FileType::Mp3) =~= "Correct usage:\n\n/mp3 https://valid_mp3_url"@);
    assert(usage_text(FileType::Mp4) =~= "Correct usage:\n\n/mp4 https://valid_mp4_url"@);
    assert(usage_text(FileType::Gif) =~= "Correct usage:\n\n/gif https://valid_video_url"@);
}

/// Whatever the kind, a failed download's error is sent to the chat, and
/// nothing else is done.
pub proof fn law_failed_download_reported(ft: FileType, e: Seq<char>)
    ensures
        delivery_plan(ft, Err(e)) == seq![StepText::SendText(e)],
{
}

/// Whatever the kind, a download without files is reported with one fixed
/// text, and nothing else is done.
pub proof fn law_empty_download_reported(ft: FileType, kind: FileType, folder: Seq<char>)
    ensures
        delivery_plan(ft, Ok((kind, Seq::<Seq<char>>::empty(), folder))) == seq![
            StepText::SendText(
                "This is an error. For some reason I haven't downloaded any files."@,
            ),
        ],
{
}

/// Each kind's files go out with their own method: mp3 as audio, mp4 as
/// video, opus as a voice message, a GIF as an animation.
pub proof fn law_send_methods(ft: FileType, kind: FileType, paths: Seq<Seq<char>>, folder: Seq<char>, i: int)
    requires
        0 <= i < paths.len(),
    ensures
        send_method_of(FileType::Mp3) == SendMethod::Audio,
        send_method_of(FileType::Mp4) == SendMethod::Video,
        send_method_of(FileType::Voice) == SendMethod::Voice,
        send_method_of(FileType::Gif) == SendMethod::Animation,
        delivery_plan(ft, Ok((kind, paths, folder)))[i] == StepText::SendFile(send_method_of(ft), paths[i]),
{
}

/// A private chat's user is logged by username, or `noname` without one;
/// other chats by an empty name.
pub proof fn law_user_labels(name: String)
    ensures
        user_label(ChatSummary::Private { username: Some(name) }) == name@,
        user_label(ChatSummary::Private { username: None }) == seq!['n', 'o', 'n', 'a', 'm', 'e'],
        user_label(ChatSummary::Other) == Seq::<char>::empty(),
{
    reveal_strlit("noname");
    assert(user_label(ChatSummary::Private { username: None }) =~= seq!['n', 'o', 'n', 'a', 'm', 'e']);
}

/// After every attempt to connect the bot waits 30 seconds; it opens the
/// database and answers updates before that only when connected.
pub proof fn law_reconnect(connected: bool)
    ensures
        run_plan(connected).last() == RunStep::Wait(30),
        connected ==> run_plan(connected) == seq![RunStep::OpenDatabase, RunStep::Dispatch, RunStep::Wait(30)],
        !connected ==> run_plan(connected) == seq![RunStep::Wait(30)],
{
}

/// The plain form of a step list keeps every step in order.
pub proof fn law_step_texts(steps: Seq<Step>, i: int)
    requires
        0 <= i < steps.len(),
    ensures
        step_texts(steps).len() == steps.len(),
        step_texts(steps)[i] == steps[i]@,
        steps[i] matches Step::SendText(t) ==> steps[i]@ == StepText::SendText(t@),
        steps[i] matches Step::SendFile(m, p) ==> steps[i]@ == StepText::SendFile(m, p@),
        steps[i] matches Step::Download(j) ==> steps[i]@ == StepText::Download(j@),
        steps[i] matches Step::RemoveFolder(f) ==> steps[i]@ == StepText::RemoveFolder(f@),
        steps[i] is RecordRequest ==> steps[i]@ is RecordRequest,
        steps[i] is SendHelp ==> steps[i]@ is SendHelp,
        steps[i] is PurgeTrash ==> steps[i]@ is PurgeTrash,
{
}

/// A download's outcome keeps its error text, or its kind, paths and folder.
pub proof fn law_outcome_text(outcome: Result<Downloads, String>)
    ensures
        outcome matches Err(e) ==> outcome_text(outcome) == Err::<(FileType, Seq<Seq<char>>, Seq<char>), Seq<char>>(e@),
        outcome matches Ok(d) ==> outcome_text(outcome) == Ok::<(FileType, Seq<Seq<char>>, Seq<char>), Seq<char>>(d@),
{
}

} // verus!
