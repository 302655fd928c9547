use crate::app_data::AppData;
use crate::command::{ToolCommand, ToolCommandView};
use crate::command::conversion_command_of;
use crate::convert::{
    check_upload, conversion_plan, conversion_plan_of, lemma_plan_layout_and_tool,
    path_stem_of, upload_check_of, ConversionPaths, ConversionPathsView, ConversionPlan,
    ConversionPlanView,
};
use crate::format::{file_format_of, lowercase_of};
use crate::error::{
    no_file_bytes_error, no_file_bytes_error_view, spawn_error, spawn_error_view, AppErr,
    AppErrView, SpawnTask,
};
use vstd::prelude::*;

verus! {

/// Where the handling of one upload stands.
#[derive(Debug)]
pub enum ConvertState {
    /// Nothing has been done yet.
    Start,
    /// The request was accepted; the upload's bytes are being read.
    ReadingBytes,
    /// The bytes are in; a random folder name is being drawn.
    DrawingName,
    /// The working folder is being created.
    CreatingFolder(ConversionPlan),
    /// The upload is being written into the working folder.
    WritingInput(ConversionPlan),
    /// The conversion tool runs; its failure to start is reported as `task`.
    RunningTool(ConversionPaths, SpawnTask),
    /// The uploaded copy is being removed.
    RemovingInput(ConversionPaths),
    /// The handling is over.
    Done,
}

/// What the outside world reports after an action.
#[derive(Debug)]
pub enum ConvertEvent {
    /// The handling begins.
    Begin,
    /// Whether the upload's bytes could be read.
    BytesRead(bool),
    /// The random folder name, if one could be drawn.
    NameDrawn(Option<String>),
    /// Whether the working folder could be created.
    FolderCreated(bool),
    /// Whether the upload could be written.
    InputWritten(bool),
    /// Whether the tool started; if not, the text of the cause.
    ToolRan(Result<(), String>),
    /// Whether the uploaded copy could be removed.
    InputRemoved(bool),
}

/// Why an upload cannot be handled at all.
#[derive(Debug, Clone, Copy, PartialEq, Eq, Structural)]
pub enum AbortReason {
    NoExtension,
    NoRandomName,
    NoStem,
    FolderNotCreated,
    InputNotWritten,
    UnsupportedFormat,
    InputNotRemoved,
    OutOfOrder,
}

/// What to do next.
#[derive(Debug)]
pub enum ConvertAction {
    ReadBytes,
    DrawName,
    CreateFolder(String),
    WriteInput(String),
    RunTool(ToolCommand),
    RemoveInput(String),
    /// Answer the client: the path of the converted file, or an error.
    Respond(Result<String, AppErr>),
    /// Give up on the upload without an answer.
    Abort(AbortReason),
}

pub enum ConvertStateView {
    Start,
    ReadingBytes,
    DrawingName,
    CreatingFolder(ConversionPlanView),
    WritingInput(ConversionPlanView),
    RunningTool(ConversionPathsView, SpawnTask),
    RemovingInput(ConversionPathsView),
    Done,
}

pub enum ConvertEventView {
    Begin,
    BytesRead(bool),
    NameDrawn(Option<Seq<char>>),
    FolderCreated(bool),
    InputWritten(bool),
    ToolRan(Result<(), Seq<char>>),
    InputRemoved(bool),
}

pub enum ConvertActionView {
    ReadBytes,
    DrawName,
    CreateFolder(Seq<char>),
    WriteInput(Seq<char>),
    RunTool(ToolCommandView),
    RemoveInput(Seq<char>),
    Respond(Result<Seq<char>, AppErrView>),
    Abort(AbortReason),
}

impl View for ConvertState {
    type V = ConvertStateView;

    open spec fn view(&self) -> ConvertStateView {
        match self {
            ConvertState::Start => ConvertStateView::Start,
            ConvertState::ReadingBytes => ConvertStateView::ReadingBytes,
            ConvertState::DrawingName => ConvertStateView::DrawingName,
            ConvertState::CreatingFolder(p) => ConvertStateView::CreatingFolder(p@),
            ConvertState::WritingInput(p) => ConvertStateView::WritingInput(p@),
            ConvertState::RunningTool(p, t) => ConvertStateView::RunningTool(p@, *t),
            ConvertState::RemovingInput(p) => ConvertStateView::RemovingInput(p@),
            ConvertState::Done => ConvertStateView::Done,
        }
    }
}

impl View for ConvertEvent {
    type V = ConvertEventView;

    open spec fn view(&self) -> ConvertEventView {
        match self {
            ConvertEvent::Begin => ConvertEventView::Begin,
            ConvertEvent::BytesRead(b) => ConvertEventView::BytesRead(*b),
            ConvertEvent::NameDrawn(n) => ConvertEventView::NameDrawn(
                match n {
                    Some(s) => Some(s@),
                    None => None,
                },
            ),
            ConvertEvent::FolderCreated(b) => ConvertEventView::FolderCreated(*b),
            ConvertEvent::InputWritten(b) => ConvertEventView::InputWritten(*b),
            ConvertEvent::ToolRan(r) => ConvertEventView::ToolRan(
                match r {
                    Ok(()) => Ok(()),
                    Err(d) => Err(d@),
                },
            ),
            ConvertEvent::InputRemoved(b) => ConvertEventView::InputRemoved(*b),
        }
    }
}

impl View for ConvertAction {
    type V = ConvertActionView;

    open spec fn view(&self) -> ConvertActionView {
        match self {
            ConvertAction::ReadBytes => ConvertActionView::ReadBytes,
            ConvertAction::DrawName => ConvertActionView::DrawName,
            ConvertAction::CreateFolder(p) => ConvertActionView::CreateFolder(p@),
            ConvertAction::WriteInput(p) => ConvertActionView::WriteInput(p@),
            ConvertAction::RunTool(c) => ConvertActionView::RunTool(c@),
            ConvertAction::RemoveInput(p) => ConvertActionView::RemoveInput(p@),
            ConvertAction::Respond(r) => ConvertActionView::Respond(
                match r {
                    Ok(p) => Ok(p@),
                    Err(e) => Err(e@),
                },
            ),
            ConvertAction::Abort(a) => ConvertActionView::Abort(*a),
        }
    }
}

/// One step of handling an upload to `new_file_format` of a file named
/// `file_name`, with working folders under `temp_folder`:
/// - at the start, refuse a conversion to the file's own format at once, and
///   give up on a file name without an extension;
/// - answer a failed read of the bytes with an error;
/// - with the bytes in and a random name drawn, plan the conversion and
///   create its folder, then write the upload into it;
/// - run the tool for the target format (giving up where the format is not
///   supported); answer a tool that cannot start with an error;
/// - once the tool has run, remove the uploaded copy and answer with the
///   path of the converted file.
/// Any failure of the file work gives up on the upload.
pub open spec fn convert_step_of(
    temp_folder: Seq<char>,
    file_name: Seq<char>,
    new_file_format: Seq<char>,
    state: ConvertStateView,
    event: ConvertEventView,
) -> (ConvertStateView, ConvertActionView) {
    match (state, event) {
        (ConvertStateView::Start, ConvertEventView::Begin) => match upload_check_of(
            file_name,
            new_file_format,
        ) {
            None => (ConvertStateView::Done, ConvertActionView::Abort(AbortReason::NoExtension)),
            Some(Err(e)) => (ConvertStateView::Done, ConvertActionView::Respond(Err(e))),
            Some(Ok(())) => (ConvertStateView::ReadingBytes, ConvertActionView::ReadBytes),
        },
        (ConvertStateView::ReadingBytes, ConvertEventView::BytesRead(ok)) => if ok {
            (ConvertStateView::DrawingName, ConvertActionView::DrawName)
        } else {
            (ConvertStateView::Done, ConvertActionView::Respond(Err(no_file_bytes_error_view())))
        },
        (ConvertStateView::DrawingName, ConvertEventView::NameDrawn(name)) => match name {
            None => (ConvertStateView::Done, ConvertActionView::Abort(AbortReason::NoRandomName)),
            Some(rnd) => match conversion_plan_of(temp_folder, file_name, new_file_format, rnd) {
                None => (ConvertStateView::Done, ConvertActionView::Abort(AbortReason::NoStem)),
                Some(plan) => (
                    ConvertStateView::CreatingFolder(plan),
                    ConvertActionView::CreateFolder(plan.paths.download_folder),
                ),
            },
        },
        (ConvertStateView::CreatingFolder(plan), ConvertEventView::FolderCreated(ok)) => if ok {
            (
                ConvertStateView::WritingInput(plan),
                ConvertActionView::WriteInput(plan.paths.input_file_path),
            )
        } else {
            (ConvertStateView::Done, ConvertActionView::Abort(AbortReason::FolderNotCreated))
        },
        (ConvertStateView::WritingInput(plan), ConvertEventView::InputWritten(ok)) => if !ok {
            (ConvertStateView::Done, ConvertActionView::Abort(AbortReason::InputNotWritten))
        } else {
            match plan.command {
                None => (
                    ConvertStateView::Done,
                    ConvertActionView::Abort(AbortReason::UnsupportedFormat),
                ),
                Some(c) => (
                    ConvertStateView::RunningTool(plan.paths, c.task),
                    ConvertActionView::RunTool(c),
                ),
            }
        },
        (ConvertStateView::RunningTool(paths, task), ConvertEventView::ToolRan(r)) => match r {
            Err(detail) => (
                ConvertStateView::Done,
                ConvertActionView::Respond(Err(spawn_error_view(task, detail))),
            ),
            Ok(()) => (
                ConvertStateView::RemovingInput(paths),
                ConvertActionView::RemoveInput(paths.input_file_path),
            ),
        },
        (ConvertStateView::RemovingInput(paths), ConvertEventView::InputRemoved(ok)) => if ok {
            (ConvertStateView::Done, ConvertActionView::Respond(Ok(paths.output_file_path)))
        } else {
            (ConvertStateView::Done, ConvertActionView::Abort(AbortReason::InputNotRemoved))
        },
        _ => (ConvertStateView::Done, ConvertActionView::Abort(AbortReason::OutOfOrder)),
    }
}

/// Decides the next state and action of the handling of an upload, given
/// what the last action brought.
pub fn convert_step(
    app_data: &AppData,
    file_name: &str,
    new_file_format: &str,
    state: ConvertState,
    event: ConvertEvent,
) -> (r: (ConvertState, ConvertAction))
    ensures
        (r.0@, r.1@) == convert_step_of(
            app_data.temp_folder@,
            file_name@,
            new_file_format@,
            state@,
            event@,
        ),
{
    match (state, event) {
        (ConvertState::Start, ConvertEvent::Begin) => match check_upload(
            file_name,
            new_file_format,
        ) {
            None => (ConvertState::Done, ConvertAction::Abort(AbortReason::NoExtension)),
            Some(Err(e)) => (ConvertState::Done, ConvertAction::Respond(Err(e))),
            Some(Ok(())) => (ConvertState::ReadingBytes, ConvertAction::ReadBytes),
        },
        (ConvertState::ReadingBytes, ConvertEvent::BytesRead(ok)) => if ok {
            (ConvertState::DrawingName, ConvertAction::DrawName)
        } else {
            (ConvertState::Done, ConvertAction::Respond(Err(no_file_bytes_error())))
        },
        (ConvertState::DrawingName, ConvertEvent::NameDrawn(name)) => match name {
            None => (ConvertState::Done, ConvertAction::Abort(AbortReason::NoRandomName)),
            Some(rnd) => match conversion_plan(app_data, file_name, new_file_format, rnd.as_str()) {
                None => (ConvertState::Done, ConvertAction::Abort(AbortReason::NoStem)),
                Some(plan) => {
                    let folder = plan.paths.download_folder.clone();
                    (ConvertState::CreatingFolder(plan), ConvertAction::CreateFolder(folder))
                },
            },
        },
        (ConvertState::CreatingFolder(plan), ConvertEvent::FolderCreated(ok)) => if ok {
            let input = plan.paths.input_file_path.clone();
            (ConvertState::WritingInput(plan), ConvertAction::WriteInput(input))
        } else {
            (ConvertState::Done, ConvertAction::Abort(AbortReason::FolderNotCreated))
        },
        (ConvertState::WritingInput(plan), ConvertEvent::InputWritten(ok)) => if !ok {
            (ConvertState::Done, ConvertAction::Abort(AbortReason::InputNotWritten))
        } else {
            let ConversionPlan { paths, command } = plan;
            match command {
                None => (ConvertState::Done, ConvertAction::Abort(AbortReason::UnsupportedFormat)),
                Some(c) => {
                    let task = c.task;
                    (ConvertState::RunningTool(paths, task), ConvertAction::RunTool(c))
                },
            }
        },
        (ConvertState::RunningTool(paths, task), ConvertEvent::ToolRan(r)) => match r {
            Err(detail) => (
                ConvertState::Done,
                ConvertAction::Respond(Err(spawn_error(task, detail.as_str()))),
            ),
            Ok(()) => {
                let input = paths.input_file_path.clone();
                (ConvertState::RemovingInput(paths), ConvertAction::RemoveInput(input))
            },
        },
        (ConvertState::RemovingInput(paths), ConvertEvent::InputRemoved(ok)) => if ok {
            (ConvertState::Done, ConvertAction::Respond(Ok(paths.output_file_path)))
        } else {
            (ConvertState::Done, ConvertAction::Abort(AbortReason::InputNotRemoved))
        },
        _ => (ConvertState::Done, ConvertAction::Abort(AbortReason::OutOfOrder)),
    }
}

/// The first step does no file work: a conversion to the file's own format
/// is refused at once, a file name without an extension is given up on, and
/// otherwise the bytes are read next.
pub proof fn lemma_first_step_does_no_file_work(
    temp_folder: Seq<char>,
    file_name: Seq<char>,
    new_file_format: Seq<char>,
)
    ensures
        ({
            let (s, a) = convert_step_of(
                temp_folder,
                file_name,
                new_file_format,
                ConvertStateView::Start,
                ConvertEventView::Begin,
            );
            &&& upload_check_of(file_name, new_file_format) matches Some(Err(e)) ==> s
                == ConvertStateView::Done && a == ConvertActionView::Respond(Err(e))
            &&& upload_check_of(file_name, new_file_format) is None ==> a
                == ConvertActionView::Abort(AbortReason::NoExtension)
            &&& upload_check_of(file_name, new_file_format) matches Some(Ok(_)) ==> a
                == ConvertActionView::ReadBytes
        }),
{
}

/// The upload is written only once its folder was created, the tool runs
/// only once the upload is written, and the uploaded copy is removed only
/// once the tool has started; each acts on the paths of the plan.
pub proof fn lemma_file_work_in_order(
    temp_folder: Seq<char>,
    file_name: Seq<char>,
    new_file_format: Seq<char>,
    state: ConvertStateView,
    event: ConvertEventView,
)
    ensures
        ({
            let (s, a) = convert_step_of(temp_folder, file_name, new_file_format, state, event);
            &&& a matches ConvertActionView::WriteInput(p) ==> state matches ConvertStateView::CreatingFolder(
                plan,
            ) && event == ConvertEventView::FolderCreated(true) && p == plan.paths.input_file_path
            &&& a matches ConvertActionView::RunTool(c) ==> state matches ConvertStateView::WritingInput(
                plan,
            ) && event == ConvertEventView::InputWritten(true) && plan.command == Some(c)
            &&& a matches ConvertActionView::RemoveInput(p) ==> state matches ConvertStateView::RunningTool(
                paths,
                _,
            ) && event matches ConvertEventView::ToolRan(r) && r is Ok && p == paths.input_file_path
        }),
{
}

/// A successful answer comes only after the uploaded copy was removed, and
/// names the converted file; every answer, and every giving up, ends the
/// handling.
pub proof fn lemma_answers_end_the_handling(
    temp_folder: Seq<char>,
    file_name: Seq<char>,
    new_file_format: Seq<char>,
    state: ConvertStateView,
    event: ConvertEventView,
)
    ensures
        ({
            let (s, a) = convert_step_of(temp_folder, file_name, new_file_format, state, event);
            &&& a matches ConvertActionView::Respond(Ok(p)) ==> state matches ConvertStateView::RemovingInput(
                paths,
            ) && event == ConvertEventView::InputRemoved(true) && p == paths.output_file_path
            &&& (a is Respond || a is Abort) ==> s == ConvertStateView::Done
            &&& state == ConvertStateView::Done ==> s == ConvertStateView::Done && a is Abort
        }),
{
}

/// The plan's paths are carried unchanged from state to state: creating the
/// folder, writing the upload, running the tool and removing the upload all
/// keep them, and a successful answer is the output path they name.
pub proof fn lemma_paths_carried(
    temp_folder: Seq<char>,
    file_name: Seq<char>,
    new_file_format: Seq<char>,
    state: ConvertStateView,
    event: ConvertEventView,
)
    ensures
        ({
            let (s, a) = convert_step_of(temp_folder, file_name, new_file_format, state, event);
            &&& (state matches ConvertStateView::CreatingFolder(p) ==> (s matches ConvertStateView::WritingInput(q) ==> q == p))
            &&& (state matches ConvertStateView::WritingInput(p) ==> (s matches ConvertStateView::RunningTool(q, _) ==> q == p.paths))
            &&& (state matches ConvertStateView::RunningTool(p, _) ==> (s matches ConvertStateView::RemovingInput(q) ==> q == p))
            &&& (state matches ConvertStateView::RemovingInput(p) ==> (a matches ConvertActionView::Respond(Ok(o)) ==> o == p.output_file_path))
        }),
{
}

/// A whole successful run: for an accepted request whose file name has a
/// stem and whose format is recognised, the handling reads the bytes, draws
/// a name, creates the folder named by the draw inside the temporary folder,
/// writes the upload there under its own name, runs the tool for the format,
/// removes the upload, and answers with the stem under the requested
/// extension in that folder.
pub proof fn lemma_successful_run(
    temp_folder: Seq<char>,
    file_name: Seq<char>,
    new_file_format: Seq<char>,
    rnd_string: Seq<char>,
    f: crate::format::FileFormat,
)
    requires
        upload_check_of(file_name, new_file_format) matches Some(c) && c is Ok,
        path_stem_of(file_name) is Some,
        file_format_of(lowercase_of(lowercase_of(new_file_format))) == Some(f),
    ensures
        ({
            let stem = path_stem_of(file_name)->0;
            let folder = temp_folder + "/"@ + rnd_string;
            let input = folder + "/"@ + file_name;
            let output = folder + "/"@ + stem + "."@ + new_file_format;
            let t = temp_folder;
            let n = file_name;
            let m = new_file_format;
            let (s1, a1) = convert_step_of(t, n, m, ConvertStateView::Start, ConvertEventView::Begin);
            let (s2, a2) = convert_step_of(t, n, m, s1, ConvertEventView::BytesRead(true));
            let (s3, a3) = convert_step_of(
                t,
                n,
                m,
                s2,
                ConvertEventView::NameDrawn(Some(rnd_string)),
            );
            let (s4, a4) = convert_step_of(t, n, m, s3, ConvertEventView::FolderCreated(true));
            let (s5, a5) = convert_step_of(t, n, m, s4, ConvertEventView::InputWritten(true));
            let (s6, a6) = convert_step_of(t, n, m, s5, ConvertEventView::ToolRan(Ok(())));
            let (s7, a7) = convert_step_of(t, n, m, s6, ConvertEventView::InputRemoved(true));
            &&& a1 == ConvertActionView::ReadBytes
            &&& a2 == ConvertActionView::DrawName
            &&& a3 == ConvertActionView::CreateFolder(folder)
            &&& a4 == ConvertActionView::WriteInput(input)
            &&& a5 == ConvertActionView::RunTool(conversion_command_of(f, input, output))
            &&& a6 == ConvertActionView::RemoveInput(input)
            &&& a7 == ConvertActionView::Respond(Ok(output))
            &&& s7 == ConvertStateView::Done
        }),
{
    lemma_plan_layout_and_tool(temp_folder, file_name, new_file_format, rnd_string);
}

} // verus!
