use file_convert::app_data::AppData;
use file_convert::command::ToolCommand;
use file_convert::convert::{
    can_convert, check_formats_differ, check_upload, conversion_paths, conversion_plan,
    is_upload_field, ping, ConvertQuery,
};
use file_convert::error::{SpawnTask, BAD_REQUEST};

fn args_of(c: &ToolCommand) -> Vec<&str> {
    c.args.iter().map(|a| a.as_str()).collect()
}

#[test]
fn can_convert_refuses_the_same_format() {
    let e = can_convert("png", "png").unwrap_err();
    assert_eq!(e.status, BAD_REQUEST);
    assert_eq!(e.status, 400);
    assert_eq!(e.message, "err: the same formats");
}

#[test]
fn can_convert_ignores_case() {
    assert!(can_convert("PNG", "png").is_err());
    assert!(can_convert("Jpg", "jPG").is_err());
    assert!(can_convert("png", "jpg").is_ok());
    // jpeg and jpg name one format, but the check compares the names
    assert!(can_convert("jpeg", "jpg").is_ok());
}

#[test]
fn can_convert_is_symmetric() {
    for (a, b) in [("doc", "DOC"), ("mp3", "wav"), ("", "x"), ("", "")] {
        assert_eq!(can_convert(a, b).is_ok(), can_convert(b, a).is_ok());
        assert!(can_convert(a, a).is_err());
    }
}

#[test]
fn formats_differ_compares_exactly() {
    assert!(check_formats_differ("png", "png").is_err());
    assert!(check_formats_differ("PNG", "png").is_ok());
}

#[test]
fn upload_without_extension_is_not_handled() {
    assert!(check_upload("photo", "png").is_none());
    assert!(check_upload(".hidden", "png").is_none());
    assert!(check_upload("", "png").is_none());
}

#[test]
fn upload_with_extension_is_checked() {
    let r = check_upload("photo.PNG", "png").unwrap();
    assert_eq!(r.unwrap_err().message, "err: the same formats");
    assert!(check_upload("photo.png", "jpg").unwrap().is_ok());
    assert!(check_upload("archive.tar.gz", "tar").unwrap().is_ok());
    assert!(check_upload("archive.tar.gz", "gz").unwrap().is_err());
}

#[test]
fn upload_field_is_the_file_field() {
    assert!(is_upload_field("file"));
    assert!(!is_upload_field("File"));
    assert!(!is_upload_field("files"));
    assert!(!is_upload_field(""));
}

#[test]
fn paths_are_laid_out_in_the_random_folder() {
    let p = conversion_paths("/tmp/conv", "AbCd", "song.mp3", "song", "wav");
    assert_eq!(p.download_folder, "/tmp/conv/AbCd");
    assert_eq!(p.input_file_path, "/tmp/conv/AbCd/song.mp3");
    assert_eq!(p.output_file_path, "/tmp/conv/AbCd/song.wav");
}

#[test]
fn plan_for_audio_uses_ffmpeg() {
    let data = AppData::new("/tmp");
    let plan = conversion_plan(&data, "a.b.mp3", "WAV", "RND").unwrap();
    assert_eq!(plan.paths.download_folder, "/tmp/RND");
    assert_eq!(plan.paths.input_file_path, "/tmp/RND/a.b.mp3");
    assert_eq!(plan.paths.output_file_path, "/tmp/RND/a.b.WAV");
    let c = plan.command.unwrap();
    assert_eq!(c.task, SpawnTask::Ffmpeg);
    assert_eq!(c.program, "ffmpeg");
    assert_eq!(
        args_of(&c),
        vec!["-y", "-i", "/tmp/RND/a.b.mp3", "-ac", "1", "-loglevel", "quiet", "/tmp/RND/a.b.WAV"]
    );
}

#[test]
fn plan_for_documents_uses_pandoc() {
    let data = AppData::new("t");
    let plan = conversion_plan(&data, "notes.md", "pdf", "X").unwrap();
    let c = plan.command.unwrap();
    assert_eq!(c.task, SpawnTask::Pandoc);
    assert_eq!(c.program, "pandoc");
    assert_eq!(args_of(&c), vec!["-f", "t/X/notes.md", "-t", "t/X/notes.pdf"]);
}

#[test]
fn plan_for_archives_uses_a_compressor() {
    let data = AppData::new("t");
    let gz = conversion_plan(&data, "f.txt", "gz", "X").unwrap().command.unwrap();
    assert_eq!(gz.task, SpawnTask::Zip);
    assert_eq!(gz.program, "gzip");
    assert_eq!(args_of(&gz), vec!["-9", "t/X/f.txt"]);
    let zip = conversion_plan(&data, "f.txt", "zip", "X").unwrap().command.unwrap();
    assert_eq!(zip.task, SpawnTask::Zip);
    assert_eq!(zip.program, "zip");
    assert_eq!(args_of(&zip), vec!["-qqj9", "t/X/f.zip", "t/X/f.txt"]);
}

#[test]
fn plan_for_unknown_format_has_no_tool() {
    let data = AppData::new("t");
    let plan = conversion_plan(&data, "f.txt", "xyz", "X").unwrap();
    assert!(plan.command.is_none());
    assert_eq!(plan.paths.output_file_path, "t/X/f.xyz");
}

#[test]
fn plan_without_stem_is_not_made() {
    let data = AppData::new("t");
    assert!(conversion_plan(&data, "", "png", "X").is_none());
    assert!(conversion_plan(&data, "dir/..", "png", "X").is_none());
}

#[test]
fn app_data_keeps_the_folder() {
    assert_eq!(AppData::new("/var/tmp").temp_folder, "/var/tmp");
}

#[test]
fn query_holds_the_format() {
    let q = ConvertQuery { new_file_format: String::from("png") };
    assert_eq!(q.new_file_format, "png");
}

#[test]
fn ping_answers_pong() {
    assert_eq!(ping(), "pong");
}
