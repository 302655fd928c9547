use vstd::prelude::*;
use vstd::string::*;

verus! {

/// HTTP status of a request that asks for a pointless conversion.
pub const BAD_REQUEST: u16 = 400;

/// HTTP status of a failure on the server's side.
pub const INTERNAL_SERVER_ERROR: u16 = 500;

/// An error answered to the client: an HTTP status and a message.
#[derive(Debug)]
pub struct AppErr {
    pub status: u16,
    pub message: String,
}

/// An error as plain values.
pub struct AppErrView {
    pub status: u16,
    pub message: Seq<char>,
}

impl View for AppErr {
    type V = AppErrView;

    open spec fn view(&self) -> AppErrView {
        AppErrView { status: self.status, message: self.message@ }
    }
}

/// The same-formats error as plain values.
pub open spec fn same_formats_error_view() -> AppErrView {
    AppErrView { status: BAD_REQUEST, message: "err: the same formats"@ }
}

/// The no-file-bytes error as plain values.
pub open spec fn no_file_bytes_error_view() -> AppErrView {
    AppErrView { status: INTERNAL_SERVER_ERROR, message: "no file bytes found"@ }
}

/// The error of a task that could not be started, as plain values.
pub open spec fn spawn_error_view(task: SpawnTask, detail: Seq<char>) -> AppErrView {
    AppErrView { status: INTERNAL_SERVER_ERROR, message: spawn_error_message(task, detail) }
}

impl AppErr {
    pub fn new(status: u16, message: &str) -> (r: AppErr)
        ensures
            r.status == status,
            r.message@ == message@,
    {
        AppErr { status, message: String::from_str(message) }
    }
}

/// The error of a request whose target format is the file's own format.
pub open spec fn is_same_formats_error(e: AppErr) -> bool {
    e.status == BAD_REQUEST && e.message@ == "err: the same formats"@
}

/// The error of an upload whose bytes could not be read.
pub open spec fn is_no_file_bytes_error(e: AppErr) -> bool {
    e.status == INTERNAL_SERVER_ERROR && e.message@ == "no file bytes found"@
}

/// The error of a request that carried no file field.
pub open spec fn is_file_convert_error(e: AppErr) -> bool {
    e.status == INTERNAL_SERVER_ERROR && e.message@ == "file convert error"@
}

pub fn no_file_bytes_error() -> (e: AppErr)
    ensures
        is_no_file_bytes_error(e),
{
    AppErr::new(INTERNAL_SERVER_ERROR, "no file bytes found")
}

pub fn file_convert_error() -> (e: AppErr)
    ensures
        is_file_convert_error(e),
{
    AppErr::new(INTERNAL_SERVER_ERROR, "file convert error")
}

/// The external work whose start can fail: the conversion tools, and the
/// removal of the uploaded file. Both compressors report as `Zip`.
#[derive(Debug, Clone, Copy, PartialEq, Eq, Structural)]
pub enum SpawnTask {
    Ffmpeg,
    Pandoc,
    Zip,
    Rm,
}

/// The name that an error message gives to a task.
pub open spec fn task_label(task: SpawnTask) -> Seq<char> {
    match task {
        SpawnTask::Ffmpeg => "ffmpeg"@,
        SpawnTask::Pandoc => "pandoc"@,
        SpawnTask::Zip => "zip"@,
        SpawnTask::Rm => "rm"@,
    }
}

impl SpawnTask {
    pub fn label(&self) -> (r: &'static str)
        ensures
            r@ == task_label(*self),
    {
        match self {
            SpawnTask::Ffmpeg => "ffmpeg",
            SpawnTask::Pandoc => "pandoc",
            SpawnTask::Zip => "zip",
            SpawnTask::Rm => "rm",
        }
    }
}

/// The message of a task that could not be started, with the cause's text.
pub open spec fn spawn_error_message(task: SpawnTask, detail: Seq<char>) -> Seq<char> {
    "err while spawn "@ + task_label(task) + " task: "@ + detail
}

/// The error answered when a task could not be started; `detail` is the
/// text of the cause.
pub fn spawn_error(task: SpawnTask, detail: &str) -> (e: AppErr)
    ensures
        e.status == INTERNAL_SERVER_ERROR,
        e.message@ == spawn_error_message(task, detail@),
{
    let message = String::from_str("err while spawn ").concat(task.label()).concat(
        " task: ",
    ).concat(detail);
    AppErr { status: INTERNAL_SERVER_ERROR, message }
}

/// The message of a task that could not be started names the tool (both
/// compressors as zip, the removal of the upload as rm) and ends with the
/// text of the cause.
pub proof fn lemma_spawn_error_messages(detail: Seq<char>)
    ensures
        spawn_error_message(SpawnTask::Ffmpeg, detail) == "err while spawn "@ + "ffmpeg"@
            + " task: "@ + detail,
        spawn_error_message(SpawnTask::Pandoc, detail) == "err while spawn "@ + "pandoc"@
            + " task: "@ + detail,
        spawn_error_message(SpawnTask::Zip, detail) == "err while spawn "@ + "zip"@ + " task: "@
            + detail,
        spawn_error_message(SpawnTask::Rm, detail) == "err while spawn "@ + "rm"@ + " task: "@
            + detail,
{
}

} // verus!
