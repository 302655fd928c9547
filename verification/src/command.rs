use crate::error::SpawnTask;
use crate::format::{CompressionFormat, FileFormat};
use vstd::prelude::*;
use vstd::string::*;

verus! {

/// An external program to run, with its arguments, and the task under
/// which a failure to start it is reported.
#[derive(Debug)]
pub struct ToolCommand {
    pub task: SpawnTask,
    pub program: String,
    pub args: Vec<String>,
}

/// A tool command as plain character sequences.
pub struct ToolCommandView {
    pub task: SpawnTask,
    pub program: Seq<char>,
    pub args: Seq<Seq<char>>,
}

impl View for ToolCommand {
    type V = ToolCommandView;

    open spec fn view(&self) -> ToolCommandView {
        ToolCommandView {
            task: self.task,
            program: self.program@,
            args: self.args@.map_values(|a: String| a@),
        }
    }
}

/// ffmpeg, overwriting the output, down-mixed to one audio channel, quiet.
pub open spec fn ffmpeg_command_of(input: Seq<char>, output: Seq<char>) -> ToolCommandView {
    ToolCommandView {
        task: SpawnTask::Ffmpeg,
        program: "ffmpeg"@,
        args: seq!["-y"@, "-i"@, input, "-ac"@, "1"@, "-loglevel"@, "quiet"@, output],
    }
}

/// pandoc, given the input path after `-f` and the output path after `-t`.
pub open spec fn documents_command_of(input: Seq<char>, output: Seq<char>) -> ToolCommandView {
    ToolCommandView {
        task: SpawnTask::Pandoc,
        program: "pandoc"@,
        args: seq!["-f"@, input, "-t"@, output],
    }
}

/// gzip at the highest level (it writes next to the input), or zip at the
/// highest level, quiet, without directory names.
pub open spec fn compress_command_of(
    input: Seq<char>,
    output: Seq<char>,
    format: CompressionFormat,
) -> ToolCommandView {
    match format {
        CompressionFormat::Gzip => ToolCommandView {
            task: SpawnTask::Zip,
            program: "gzip"@,
            args: seq!["-9"@, input],
        },
        CompressionFormat::Zip => ToolCommandView {
            task: SpawnTask::Zip,
            program: "zip"@,
            args: seq!["-qqj9"@, output, input],
        },
    }
}

/// The tool that converts to a format: ffmpeg for audio, images and video,
/// pandoc for documents, and a compressor for archives.
pub open spec fn conversion_command_of(
    format: FileFormat,
    input: Seq<char>,
    output: Seq<char>,
) -> ToolCommandView {
    match format {
        FileFormat::Audio(_) | FileFormat::Image(_) | FileFormat::Video(_) => ffmpeg_command_of(
            input,
            output,
        ),
        FileFormat::Compression(f) => compress_command_of(input, output, f),
        FileFormat::Document(_) => documents_command_of(input, output),
    }
}

pub fn ffmpeg_command(input_file_path: &str, output_file_path: &str) -> (r: ToolCommand)
    ensures
        r@ == ffmpeg_command_of(input_file_path@, output_file_path@),
{
    let args = vec![
        String::from_str("-y"),
        String::from_str("-i"),
        String::from_str(input_file_path),
        String::from_str("-ac"),
        String::from_str("1"),
        String::from_str("-loglevel"),
        String::from_str("quiet"),
        String::from_str(output_file_path),
    ];
    let r = ToolCommand { task: SpawnTask::Ffmpeg, program: String::from_str("ffmpeg"), args };
    assert(r@.args =~= ffmpeg_command_of(input_file_path@, output_file_path@).args);
    r
}

pub fn documents_command(input_file_path: &str, output_file_path: &str) -> (r: ToolCommand)
    ensures
        r@ == documents_command_of(input_file_path@, output_file_path@),
{
    let args = vec![
        String::from_str("-f"),
        String::from_str(input_file_path),
        String::from_str("-t"),
        String::from_str(output_file_path),
    ];
    let r = ToolCommand { task: SpawnTask::Pandoc, program: String::from_str("pandoc"), args };
    assert(r@.args =~= documents_command_of(input_file_path@, output_file_path@).args);
    r
}

pub fn compress_command(
    input_file_path: &str,
    output_file_path: &str,
    compression_format: CompressionFormat,
) -> (r: ToolCommand)
    ensures
        r@ == compress_command_of(input_file_path@, output_file_path@, compression_format),
{
    match compression_format {
        CompressionFormat::Gzip => {
            let args = vec![String::from_str("-9"), String::from_str(input_file_path)];
            let r = ToolCommand { task: SpawnTask::Zip, program: String::from_str("gzip"), args };
            assert(r@.args =~= compress_command_of(
                input_file_path@,
                output_file_path@,
                compression_format,
            ).args);
            r
        },
        CompressionFormat::Zip => {
            let args = vec![
                String::from_str("-qqj9"),
                String::from_str(output_file_path),
                String::from_str(input_file_path),
            ];
            let r = ToolCommand { task: SpawnTask::Zip, program: String::from_str("zip"), args };
            assert(r@.args =~= compress_command_of(
                input_file_path@,
                output_file_path@,
                compression_format,
            ).args);
            r
        },
    }
}

/// The tool command that converts the input file to the output file in the
/// given format.
pub fn conversion_command(
    file_format: FileFormat,
    input_file_path: &str,
    output_file_path: &str,
) -> (r: ToolCommand)
    ensures
        r@ == conversion_command_of(file_format, input_file_path@, output_file_path@),
{
    match file_format {
        FileFormat::Audio(_) | FileFormat::Image(_) | FileFormat::Video(_) => {
            ffmpeg_command(input_file_path, output_file_path)
        },
        FileFormat::Compression(f) => compress_command(input_file_path, output_file_path, f),
        FileFormat::Document(_) => documents_command(input_file_path, output_file_path),
    }
}

/// Audio, images and video, whatever the format, are converted by ffmpeg
/// from the input to the output, overwriting, with one audio channel, quiet.
pub proof fn lemma_media_use_ffmpeg(
    input: Seq<char>,
    output: Seq<char>,
    a: crate::format::AudioFileFormat,
    i: crate::format::ImageFileFormat,
    v: crate::format::VideoFileFormat,
)
    ensures
        conversion_command_of(FileFormat::Audio(a), input, output).task == SpawnTask::Ffmpeg,
        conversion_command_of(FileFormat::Audio(a), input, output).program == "ffmpeg"@,
        conversion_command_of(FileFormat::Audio(a), input, output).args == seq!["-y"@, "-i"@, input, "-ac"@, "1"@, "-loglevel"@, "quiet"@, output],
        conversion_command_of(FileFormat::Image(i), input, output).task == SpawnTask::Ffmpeg,
        conversion_command_of(FileFormat::Image(i), input, output).program == "ffmpeg"@,
        conversion_command_of(FileFormat::Image(i), input, output).args == seq!["-y"@, "-i"@, input, "-ac"@, "1"@, "-loglevel"@, "quiet"@, output],
        conversion_command_of(FileFormat::Video(v), input, output).task == SpawnTask::Ffmpeg,
        conversion_command_of(FileFormat::Video(v), input, output).program == "ffmpeg"@,
        conversion_command_of(FileFormat::Video(v), input, output).args == seq!["-y"@, "-i"@, input, "-ac"@, "1"@, "-loglevel"@, "quiet"@, output],
{
}

/// Documents, whatever the format, are converted by pandoc, given the input
/// after `-f` and the output after `-t`.
pub proof fn lemma_documents_use_pandoc(
    input: Seq<char>,
    output: Seq<char>,
    d: crate::format::DocumentFileFormat,
)
    ensures
        conversion_command_of(FileFormat::Document(d), input, output).task == SpawnTask::Pandoc,
        conversion_command_of(FileFormat::Document(d), input, output).program == "pandoc"@,
        conversion_command_of(FileFormat::Document(d), input, output).args == seq!["-f"@, input, "-t"@, output],
{
}

/// Archives are made by gzip (from the input alone) or by zip (into the
/// output, from the input); both report as the zip task.
pub proof fn lemma_archives_use_compressors(input: Seq<char>, output: Seq<char>)
    ensures
        conversion_command_of(FileFormat::Compression(CompressionFormat::Gzip), input, output).task == SpawnTask::Zip,
        conversion_command_of(FileFormat::Compression(CompressionFormat::Gzip), input, output).program == "gzip"@,
        conversion_command_of(FileFormat::Compression(CompressionFormat::Gzip), input, output).args == seq!["-9"@, input],
        conversion_command_of(FileFormat::Compression(CompressionFormat::Zip), input, output).task == SpawnTask::Zip,
        conversion_command_of(FileFormat::Compression(CompressionFormat::Zip), input, output).program == "zip"@,
        conversion_command_of(FileFormat::Compression(CompressionFormat::Zip), input, output).args == seq!["-qqj9"@, output, input],
{
}

} // verus!
