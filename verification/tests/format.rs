use file_convert::format::{
    AudioFileFormat, CompressionFormat, DocumentFileFormat, FileFormat, ImageFileFormat,
    VideoFileFormat,
};
use std::str::FromStr;

#[test]
fn image_extensions_are_recognised() {
    assert_eq!(ImageFileFormat::from_str("gif"), Ok(ImageFileFormat::Gif));
    assert_eq!(ImageFileFormat::from_str("jpeg"), Ok(ImageFileFormat::Jpeg));
    assert_eq!(ImageFileFormat::from_str("jpg"), Ok(ImageFileFormat::Jpeg));
    assert_eq!(ImageFileFormat::from_str("png"), Ok(ImageFileFormat::Png));
    assert_eq!(ImageFileFormat::from_str("svg"), Ok(ImageFileFormat::Svg));
    assert_eq!(ImageFileFormat::from_str("bmp"), Err(()));
}

#[test]
fn image_recognition_ignores_case() {
    assert_eq!(ImageFileFormat::from_str("GIF"), Ok(ImageFileFormat::Gif));
    assert_eq!(ImageFileFormat::from_str("JpG"), Ok(ImageFileFormat::Jpeg));
    assert_eq!("PNG".parse::<ImageFileFormat>(), Ok(ImageFileFormat::Png));
}

#[test]
fn lowercase_parser_does_not_lowercase() {
    assert_eq!(ImageFileFormat::from_lowercase("GIF"), Err(()));
    assert_eq!(ImageFileFormat::from_lowercase("gif"), Ok(ImageFileFormat::Gif));
}

#[test]
fn video_extensions_are_recognised() {
    assert_eq!(VideoFileFormat::from_str("mkv"), Ok(VideoFileFormat::Mkv));
    assert_eq!(VideoFileFormat::from_str("MP4"), Ok(VideoFileFormat::Mp4));
    assert_eq!(VideoFileFormat::from_str("webm"), Ok(VideoFileFormat::Webm));
    assert_eq!(VideoFileFormat::from_str("avi"), Err(()));
}

#[test]
fn audio_extensions_are_recognised() {
    assert_eq!(AudioFileFormat::from_str("mp3"), Ok(AudioFileFormat::Mp3));
    assert_eq!(AudioFileFormat::from_str("Wav"), Ok(AudioFileFormat::Wav));
    assert_eq!(AudioFileFormat::from_str("flac"), Err(()));
}

#[test]
fn document_extensions_are_recognised() {
    assert_eq!(DocumentFileFormat::from_str("doc"), Ok(DocumentFileFormat::Doc));
    assert_eq!(DocumentFileFormat::from_str("docx"), Ok(DocumentFileFormat::Docx));
    assert_eq!(DocumentFileFormat::from_str("json"), Ok(DocumentFileFormat::Json));
    assert_eq!(DocumentFileFormat::from_str("PDF"), Ok(DocumentFileFormat::Pdf));
    assert_eq!(DocumentFileFormat::from_str("toml"), Ok(DocumentFileFormat::Toml));
    assert_eq!(DocumentFileFormat::from_str("txt"), Ok(DocumentFileFormat::Txt));
    assert_eq!(DocumentFileFormat::from_str("yaml"), Ok(DocumentFileFormat::Yaml));
    assert_eq!(DocumentFileFormat::from_str("yml"), Err(()));
}

#[test]
fn compression_extensions_are_recognised() {
    assert_eq!(CompressionFormat::from_str("gz"), Ok(CompressionFormat::Gzip));
    assert_eq!(CompressionFormat::from_str("ZIP"), Ok(CompressionFormat::Zip));
    assert_eq!(CompressionFormat::from_str("gzip"), Err(()));
}

#[test]
fn file_format_groups_by_kind() {
    assert_eq!(FileFormat::from_str("mp3"), Ok(FileFormat::Audio(AudioFileFormat::Mp3)));
    assert_eq!(FileFormat::from_str("gz"), Ok(FileFormat::Compression(CompressionFormat::Gzip)));
    assert_eq!(FileFormat::from_str("Yaml"), Ok(FileFormat::Document(DocumentFileFormat::Yaml)));
    assert_eq!(FileFormat::from_str("JPEG"), Ok(FileFormat::Image(ImageFileFormat::Jpeg)));
    assert_eq!(FileFormat::from_str("webm"), Ok(FileFormat::Video(VideoFileFormat::Webm)));
    assert_eq!(FileFormat::from_str(""), Err(()));
    assert_eq!(FileFormat::from_str(".mp3"), Err(()));
    assert_eq!(FileFormat::from_str("mp3 "), Err(()));
}

#[test]
fn every_extension_belongs_to_one_kind() {
    let all = [
        "gif", "jpeg", "jpg", "png", "svg", "mkv", "mp4", "webm", "mp3", "wav", "doc", "docx",
        "json", "pdf", "toml", "txt", "yaml", "gz", "zip",
    ];
    for ext in all {
        let kinds = [
            AudioFileFormat::from_str(ext).is_ok(),
            CompressionFormat::from_str(ext).is_ok(),
            DocumentFileFormat::from_str(ext).is_ok(),
            ImageFileFormat::from_str(ext).is_ok(),
            VideoFileFormat::from_str(ext).is_ok(),
        ];
        assert_eq!(kinds.iter().filter(|k| **k).count(), 1, "{}", ext);
        assert!(FileFormat::from_str(ext).is_ok());
    }
}

#[test]
fn file_format_recognition_ignores_case() {
    for (a, b) in [("Mp4", "mP4"), ("DOCX", "docx"), ("Zip", "zIP"), ("nope", "NOPE")] {
        assert_eq!(FileFormat::from_str(a), FileFormat::from_str(b));
    }
}

#[test]
fn ascii_case_variants_are_recognised_alike() {
    for s in ["mp3", "Mp4", "DOCX", "zip", "Gz", "jpeg", "webM", "nope", "", "TXT "] {
        let up = s.to_ascii_uppercase();
        let low = s.to_ascii_lowercase();
        assert_eq!(FileFormat::from_str(s), FileFormat::from_str(&up));
        assert_eq!(FileFormat::from_str(s), FileFormat::from_str(&low));
        assert_eq!(ImageFileFormat::from_str(s), ImageFileFormat::from_str(&up));
        assert_eq!(CompressionFormat::from_str(s), CompressionFormat::from_str(&up));
    }
}
