use file_convert::command::{compress_command, documents_command, ffmpeg_command};
use file_convert::error::{
    file_convert_error, no_file_bytes_error, spawn_error, AppErr, SpawnTask, INTERNAL_SERVER_ERROR,
};
use file_convert::format::CompressionFormat;

#[test]
fn ffmpeg_arguments() {
    let c = ffmpeg_command("in.png", "out.gif");
    assert_eq!(c.program, "ffmpeg");
    assert_eq!(c.args, vec!["-y", "-i", "in.png", "-ac", "1", "-loglevel", "quiet", "out.gif"]);
}

#[test]
fn pandoc_arguments() {
    let c = documents_command("in.md", "out.pdf");
    assert_eq!(c.program, "pandoc");
    assert_eq!(c.args, vec!["-f", "in.md", "-t", "out.pdf"]);
}

#[test]
fn compressor_arguments() {
    let g = compress_command("in.txt", "out.gz", CompressionFormat::Gzip);
    assert_eq!(g.program, "gzip");
    assert_eq!(g.args, vec!["-9", "in.txt"]);
    let z = compress_command("in.txt", "out.zip", CompressionFormat::Zip);
    assert_eq!(z.program, "zip");
    assert_eq!(z.args, vec!["-qqj9", "out.zip", "in.txt"]);
    assert_eq!(g.task, SpawnTask::Zip);
    assert_eq!(z.task, SpawnTask::Zip);
}

#[test]
fn spawn_error_messages() {
    let e = spawn_error(SpawnTask::Ffmpeg, "No such file or directory (os error 2)");
    assert_eq!(e.status, INTERNAL_SERVER_ERROR);
    assert_eq!(e.message, "err while spawn ffmpeg task: No such file or directory (os error 2)");
    assert_eq!(spawn_error(SpawnTask::Pandoc, "x").message, "err while spawn pandoc task: x");
    assert_eq!(spawn_error(SpawnTask::Zip, "").message, "err while spawn zip task: ");
    assert_eq!(spawn_error(SpawnTask::Rm, "gone").message, "err while spawn rm task: gone");
}

#[test]
fn fixed_errors() {
    let e = no_file_bytes_error();
    assert_eq!(e.status, 500);
    assert_eq!(e.message, "no file bytes found");
    let e = file_convert_error();
    assert_eq!(e.status, 500);
    assert_eq!(e.message, "file convert error");
    let e = AppErr::new(418, "teapot");
    assert_eq!((e.status, e.message.as_str()), (418, "teapot"));
}
