use std::str::FromStr;
use vstd::prelude::*;
use vstd::string::*;
use vstd::utf8::is_ascii_chars;

verus! {

/// The lower-case form of a string, as `str::to_lowercase` computes it.
pub uninterp spec fn lowercase_of(s: Seq<char>) -> Seq<char>;

/// An ASCII capital letter in lower case; every other character unchanged.
pub open spec fn ascii_lower_char(c: char) -> char {
    if 'A' <= c <= 'Z' {
        (c as int + 32) as char
    } else {
        c
    }
}

/// An ASCII small letter in upper case; every other character unchanged.
pub open spec fn ascii_upper_char(c: char) -> char {
    if 'a' <= c <= 'z' {
        (c as int - 32) as char
    } else {
        c
    }
}

/// The string with its ASCII capital letters in lower case.
pub open spec fn ascii_lowercase(s: Seq<char>) -> Seq<char> {
    s.map_values(|c: char| ascii_lower_char(c))
}

/// The string with its ASCII small letters in upper case.
pub open spec fn ascii_uppercase(s: Seq<char>) -> Seq<char> {
    s.map_values(|c: char| ascii_upper_char(c))
}

/// Calls `str::to_lowercase`. Its result depends on the string alone (the
/// Unicode lower-case mapping, with no locale), so it is given a name. Of the
/// mapping, only what it does to ASCII text is stated: Unicode maps `A`-`Z`
/// to `a`-`z` and every other ASCII character to itself. What it does to
/// other characters is not stated.
#[verifier::external_body]
pub(crate) fn to_lowercase(s: &str) -> (r: String)
    ensures
        r@ == lowercase_of(s@),
        is_ascii_chars(s@) ==> r@ == ascii_lowercase(s@),
{
    s.to_lowercase()
}

/// Whether two strings hold the same characters.
pub fn str_eq(a: &str, b: &str) -> (r: bool)
    ensures
        r == (a@ == b@),
{
    let n = a.unicode_len();
    if n != b.unicode_len() {
        return false;
    }
    let mut i: usize = 0;
    while i < n
        invariant
            n == a@.len(),
            n == b@.len(),
            i <= n,
            forall|j: int| 0 <= j < i ==> a@[j] == b@[j],
        decreases n - i,
    {
        if a.get_char(i) != b.get_char(i) {
            return false;
        }
        i = i + 1;
    }
    assert(a@ =~= b@);
    true
}

/// `Ok` of the recognised value, `Err(())` where nothing was recognised.
pub open spec fn recognised<T>(o: Option<T>) -> Result<T, ()> {
    match o {
        Some(v) => Ok(v),
        None => Err(()),
    }
}

/// An image format.
#[derive(Debug, Clone, Copy, PartialEq, Eq, Structural)]
pub enum ImageFileFormat {
    Gif,
    Jpeg,
    Png,
    Svg,
}

/// The image format that a lower-case extension names.
pub open spec fn image_format_of(t: Seq<char>) -> Option<ImageFileFormat> {
    if t == "gif"@ {
        Some(ImageFileFormat::Gif)
    } else if t == "jpeg"@ || t == "jpg"@ {
        Some(ImageFileFormat::Jpeg)
    } else if t == "png"@ {
        Some(ImageFileFormat::Png)
    } else if t == "svg"@ {
        Some(ImageFileFormat::Svg)
    } else {
        None
    }
}

impl ImageFileFormat {
    /// Recognises an extension that is already in lower case.
    pub fn from_lowercase(t: &str) -> (r: Result<Self, ()>)
        ensures
            r == recognised(image_format_of(t@)),
    {
        if str_eq(t, "gif") {
            Ok(ImageFileFormat::Gif)
        } else if str_eq(t, "jpeg") || str_eq(t, "jpg") {
            Ok(ImageFileFormat::Jpeg)
        } else if str_eq(t, "png") {
            Ok(ImageFileFormat::Png)
        } else if str_eq(t, "svg") {
            Ok(ImageFileFormat::Svg)
        } else {
            Err(())
        }
    }
}

impl FromStr for ImageFileFormat {
    type Err = ();

    /// Recognises an extension in any case: the string is lower-cased first.
    fn from_str(s: &str) -> (r: Result<Self, ()>)
        ensures
            r == recognised(image_format_of(lowercase_of(s@))),
            is_ascii_chars(s@) ==> r == recognised(image_format_of(ascii_lowercase(s@))),
    {
        let s = to_lowercase(s);
        Self::from_lowercase(s.as_str())
    }
}

/// A video format.
#[derive(Debug, Clone, Copy, PartialEq, Eq, Structural)]
pub enum VideoFileFormat {
    Mkv,
    Mp4,
    Webm,
}

/// The video format that a lower-case extension names.
pub open spec fn video_format_of(t: Seq<char>) -> Option<VideoFileFormat> {
    if t == "mkv"@ {
        Some(VideoFileFormat::Mkv)
    } else if t == "mp4"@ {
        Some(VideoFileFormat::Mp4)
    } else if t == "webm"@ {
        Some(VideoFileFormat::Webm)
    } else {
        None
    }
}

impl VideoFileFormat {
    /// Recognises an extension that is already in lower case.
    pub fn from_lowercase(t: &str) -> (r: Result<Self, ()>)
        ensures
            r == recognised(video_format_of(t@)),
    {
        if str_eq(t, "mkv") {
            Ok(VideoFileFormat::Mkv)
        } else if str_eq(t, "mp4") {
            Ok(VideoFileFormat::Mp4)
        } else if str_eq(t, "webm") {
            Ok(VideoFileFormat::Webm)
        } else {
            Err(())
        }
    }
}

impl FromStr for VideoFileFormat {
    type Err = ();

    /// Recognises an extension in any case: the string is lower-cased first.
    fn from_str(s: &str) -> (r: Result<Self, ()>)
        ensures
            r == recognised(video_format_of(lowercase_of(s@))),
            is_ascii_chars(s@) ==> r == recognised(video_format_of(ascii_lowercase(s@))),
    {
        let s = to_lowercase(s);
        Self::from_lowercase(s.as_str())
    }
}

/// An audio format.
#[derive(Debug, Clone, Copy, PartialEq, Eq, Structural)]
pub enum AudioFileFormat {
    Mp3,
    Wav,
}

/// The audio format that a lower-case extension names.
pub open spec fn audio_format_of(t: Seq<char>) -> Option<AudioFileFormat> {
    if t == "mp3"@ {
        Some(AudioFileFormat::Mp3)
    } else if t == "wav"@ {
        Some(AudioFileFormat::Wav)
    } else {
        None
    }
}

impl AudioFileFormat {
    /// Recognises an extension that is already in lower case.
    pub fn from_lowercase(t: &str) -> (r: Result<Self, ()>)
        ensures
            r == recognised(audio_format_of(t@)),
    {
        if str_eq(t, "mp3") {
            Ok(AudioFileFormat::Mp3)
        } else if str_eq(t, "wav") {
            Ok(AudioFileFormat::Wav)
        } else {
            Err(())
        }
    }
}

impl FromStr for AudioFileFormat {
    type Err = ();

    /// Recognises an extension in any case: the string is lower-cased first.
    fn from_str(s: &str) -> (r: Result<Self, ()>)
        ensures
            r == recognised(audio_format_of(lowercase_of(s@))),
            is_ascii_chars(s@) ==> r == recognised(audio_format_of(ascii_lowercase(s@))),
    {
        let s = to_lowercase(s);
        Self::from_lowercase(s.as_str())
    }
}

/// A document format.
#[derive(Debug, Clone, Copy, PartialEq, Eq, Structural)]
pub enum DocumentFileFormat {
    Doc,
    Docx,
    Json,
    Pdf,
    Toml,
    Txt,
    Yaml,
}

/// The document format that a lower-case extension names.
pub open spec fn document_format_of(t: Seq<char>) -> Option<DocumentFileFormat> {
    if t == "doc"@ {
        Some(DocumentFileFormat::Doc)
    } else if t == "docx"@ {
        Some(DocumentFileFormat::Docx)
    } else if t == "json"@ {
        Some(DocumentFileFormat::Json)
    } else if t == "pdf"@ {
        Some(DocumentFileFormat::Pdf)
    } else if t == "toml"@ {
        Some(DocumentFileFormat::Toml)
    } else if t == "txt"@ {
        Some(DocumentFileFormat::Txt)
    } else if t == "yaml"@ {
        Some(DocumentFileFormat::Yaml)
    } else {
        None
    }
}

impl DocumentFileFormat {
    /// Recognises an extension that is already in lower case.
    pub fn from_lowercase(t: &str) -> (r: Result<Self, ()>)
        ensures
            r == recognised(document_format_of(t@)),
    {
        if str_eq(t, "doc") {
            Ok(DocumentFileFormat::Doc)
        } else if str_eq(t, "docx") {
            Ok(DocumentFileFormat::Docx)
        } else if str_eq(t, "json") {
            Ok(DocumentFileFormat::Json)
        } else if str_eq(t, "pdf") {
            Ok(DocumentFileFormat::Pdf)
        } else if str_eq(t, "toml") {
            Ok(DocumentFileFormat::Toml)
        } else if str_eq(t, "txt") {
            Ok(DocumentFileFormat::Txt)
        } else if str_eq(t, "yaml") {
            Ok(DocumentFileFormat::Yaml)
        } else {
            Err(())
        }
    }
}

impl FromStr for DocumentFileFormat {
    type Err = ();

    /// Recognises an extension in any case: the string is lower-cased first.
    fn from_str(s: &str) -> (r: Result<Self, ()>)
        ensures
            r == recognised(document_format_of(lowercase_of(s@))),
            is_ascii_chars(s@) ==> r == recognised(document_format_of(ascii_lowercase(s@))),
    {
        let s = to_lowercase(s);
        Self::from_lowercase(s.as_str())
    }
}

/// A compression format.
#[derive(Debug, Clone, Copy, PartialEq, Eq, Structural)]
pub enum CompressionFormat {
    Gzip,
    Zip,
}

/// The compression format that a lower-case extension names.
pub open spec fn compression_format_of(t: Seq<char>) -> Option<CompressionFormat> {
    if t == "gz"@ {
        Some(CompressionFormat::Gzip)
    } else if t == "zip"@ {
        Some(CompressionFormat::Zip)
    } else {
        None
    }
}

impl CompressionFormat {
    /// Recognises an extension that is already in lower case.
    pub fn from_lowercase(t: &str) -> (r: Result<Self, ()>)
        ensures
            r == recognised(compression_format_of(t@)),
    {
        if str_eq(t, "gz") {
            Ok(CompressionFormat::Gzip)
        } else if str_eq(t, "zip") {
            Ok(CompressionFormat::Zip)
        } else {
            Err(())
        }
    }
}

impl FromStr for CompressionFormat {
    type Err = ();

    /// Recognises an extension in any case: the string is lower-cased first.
    fn from_str(s: &str) -> (r: Result<Self, ()>)
        ensures
            r == recognised(compression_format_of(lowercase_of(s@))),
            is_ascii_chars(s@) ==> r == recognised(compression_format_of(ascii_lowercase(s@))),
    {
        let s = to_lowercase(s);
        Self::from_lowercase(s.as_str())
    }
}

/// The target format of a conversion, grouped by the kind of file.
#[derive(Debug, Clone, Copy, PartialEq, Eq, Structural)]
pub enum FileFormat {
    Audio(AudioFileFormat),
    Compression(CompressionFormat),
    Document(DocumentFileFormat),
    Image(ImageFileFormat),
    Video(VideoFileFormat),
}

/// The format that a lower-case extension names: the kinds are tried in the
/// order audio, compression, document, image, video.
pub open spec fn file_format_of(t: Seq<char>) -> Option<FileFormat> {
    if let Some(f) = audio_format_of(t) {
        Some(FileFormat::Audio(f))
    } else if let Some(f) = compression_format_of(t) {
        Some(FileFormat::Compression(f))
    } else if let Some(f) = document_format_of(t) {
        Some(FileFormat::Document(f))
    } else if let Some(f) = image_format_of(t) {
        Some(FileFormat::Image(f))
    } else if let Some(f) = video_format_of(t) {
        Some(FileFormat::Video(f))
    } else {
        None
    }
}

impl FileFormat {
    /// Recognises an extension that is already in lower case, trying each
    /// kind of file in turn.
    pub fn from_lowercase(t: &str) -> (r: Result<Self, ()>)
        ensures
            r == recognised(file_format_of(t@)),
    {
        if let Ok(f) = AudioFileFormat::from_lowercase(t) {
            return Ok(FileFormat::Audio(f));
        }
        if let Ok(f) = CompressionFormat::from_lowercase(t) {
            return Ok(FileFormat::Compression(f));
        }
        if let Ok(f) = DocumentFileFormat::from_lowercase(t) {
            return Ok(FileFormat::Document(f));
        }
        if let Ok(f) = ImageFileFormat::from_lowercase(t) {
            return Ok(FileFormat::Image(f));
        }
        if let Ok(f) = VideoFileFormat::from_lowercase(t) {
            return Ok(FileFormat::Video(f));
        }
        Err(())
    }
}

impl FromStr for FileFormat {
    type Err = ();

    /// Recognises an extension in any case. The string is lower-cased twice,
    /// as each kind's own `from_str` would lower-case the already lower-cased
    /// string again, and the result is matched by `from_lowercase`.
    fn from_str(s: &str) -> (r: Result<Self, ()>)
        ensures
            r == recognised(file_format_of(lowercase_of(lowercase_of(s@)))),
            is_ascii_chars(s@) ==> r == recognised(file_format_of(ascii_lowercase(s@))),
    {
        let ghost original = s@;
        let s = to_lowercase(s);
        proof {
            if is_ascii_chars(original) {
                lemma_ascii_lowercase_stays_ascii(original);
            }
        }
        let t = to_lowercase(s.as_str());
        proof {
            if is_ascii_chars(original) {
                lemma_ascii_lowercase_idempotent(original);
            }
        }
        Self::from_lowercase(t.as_str())
    }
}

/// ASCII text stays ASCII when its letters change case.
pub proof fn lemma_ascii_lowercase_stays_ascii(s: Seq<char>)
    requires
        is_ascii_chars(s),
    ensures
        is_ascii_chars(ascii_lowercase(s)),
        is_ascii_chars(ascii_uppercase(s)),
{
    assert forall|i| 0 <= i < ascii_lowercase(s).len() implies '\0' <= #[trigger] ascii_lowercase(
        s,
    )[i] <= '\u{7f}' by {
        let c = s[i];
        if 'A' <= c <= 'Z' {
            assert((c as int + 32) as char as int == c as int + 32);
        }
    }
    assert forall|i| 0 <= i < ascii_uppercase(s).len() implies '\0' <= #[trigger] ascii_uppercase(
        s,
    )[i] <= '\u{7f}' by {
        let c = s[i];
        if 'a' <= c <= 'z' {
            assert((c as int - 32) as char as int == c as int - 32);
        }
    }
}

/// Lower-casing ASCII letters twice is lower-casing them once.
pub proof fn lemma_ascii_lowercase_idempotent(s: Seq<char>)
    ensures
        ascii_lowercase(ascii_lowercase(s)) == ascii_lowercase(s),
{
    assert forall|i| 0 <= i < s.len() implies #[trigger] ascii_lowercase(ascii_lowercase(s))[i]
        == ascii_lowercase(s)[i] by {
        let c = s[i];
        if 'A' <= c <= 'Z' {
            assert((c as int + 32) as char as int == c as int + 32);
        }
    }
    assert(ascii_lowercase(ascii_lowercase(s)) =~= ascii_lowercase(s));
}

/// Upper-casing ASCII letters and then lower-casing them is lower-casing.
pub proof fn lemma_ascii_lowercase_of_uppercase(s: Seq<char>)
    ensures
        ascii_lowercase(ascii_uppercase(s)) == ascii_lowercase(s),
{
    assert forall|i| 0 <= i < s.len() implies #[trigger] ascii_lowercase(ascii_uppercase(s))[i]
        == ascii_lowercase(s)[i] by {
        let c = s[i];
        if 'a' <= c <= 'z' {
            assert((c as int - 32) as char as int == c as int - 32);
            assert(((c as int - 32) as char as int + 32) as char == c);
        }
    }
    assert(ascii_lowercase(ascii_uppercase(s)) =~= ascii_lowercase(s));
}

/// How many kinds of file (audio, compression, document, image, video)
/// recognise the extension.
pub open spec fn kinds_recognising(t: Seq<char>) -> nat {
    (if audio_format_of(t) is Some { 1nat } else { 0nat }) + (if compression_format_of(
        t,
    ) is Some {
        1nat
    } else {
        0nat
    }) + (if document_format_of(t) is Some { 1nat } else { 0nat }) + (if image_format_of(
        t,
    ) is Some {
        1nat
    } else {
        0nat
    }) + (if video_format_of(t) is Some { 1nat } else { 0nat })
}

/// No extension names formats of two different kinds.
pub proof fn lemma_kinds_disjoint(t: Seq<char>)
    ensures
        kinds_recognising(t) <= 1,
{
    reveal_strlit("gif");
    assert("gif"@ =~= seq!['g', 'i', 'f']);
    reveal_strlit("jpeg");
    assert("jpeg"@ =~= seq!['j', 'p', 'e', 'g']);
    reveal_strlit("jpg");
    assert("jpg"@ =~= seq!['j', 'p', 'g']);
    reveal_strlit("png");
    assert("png"@ =~= seq!['p', 'n', 'g']);
    reveal_strlit("svg");
    assert("svg"@ =~= seq!['s', 'v', 'g']);
    reveal_strlit("mkv");
    assert("mkv"@ =~= seq!['m', 'k', 'v']);
    reveal_strlit("mp4");
    assert("mp4"@ =~= seq!['m', 'p', '4']);
    reveal_strlit("webm");
    assert("webm"@ =~= seq!['w', 'e', 'b', 'm']);
    reveal_strlit("mp3");
    assert("mp3"@ =~= seq!['m', 'p', '3']);
    reveal_strlit("wav");
    assert("wav"@ =~= seq!['w', 'a', 'v']);
    reveal_strlit("doc");
    assert("doc"@ =~= seq!['d', 'o', 'c']);
    reveal_strlit("docx");
    assert("docx"@ =~= seq!['d', 'o', 'c', 'x']);
    reveal_strlit("json");
    assert("json"@ =~= seq!['j', 's', 'o', 'n']);
    reveal_strlit("pdf");
    assert("pdf"@ =~= seq!['p', 'd', 'f']);
    reveal_strlit("toml");
    assert("toml"@ =~= seq!['t', 'o', 'm', 'l']);
    reveal_strlit("txt");
    assert("txt"@ =~= seq!['t', 'x', 't']);
    reveal_strlit("yaml");
    assert("yaml"@ =~= seq!['y', 'a', 'm', 'l']);
    reveal_strlit("gz");
    assert("gz"@ =~= seq!['g', 'z']);
    reveal_strlit("zip");
    assert("zip"@ =~= seq!['z', 'i', 'p']);
}

/// `FileFormat` recognises an extension exactly when one kind does, and then
/// as that kind's format: the order in which the kinds are tried makes no
/// difference.
pub proof fn lemma_file_format_by_kind(t: Seq<char>)
    ensures
        audio_format_of(t) matches Some(f) ==> file_format_of(t) == Some(FileFormat::Audio(f)),
        compression_format_of(t) matches Some(f) ==> file_format_of(t) == Some(
            FileFormat::Compression(f),
        ),
        document_format_of(t) matches Some(f) ==> file_format_of(t) == Some(
            FileFormat::Document(f),
        ),
        image_format_of(t) matches Some(f) ==> file_format_of(t) == Some(FileFormat::Image(f)),
        video_format_of(t) matches Some(f) ==> file_format_of(t) == Some(FileFormat::Video(f)),
        file_format_of(t) is None <==> kinds_recognising(t) == 0,
{
    lemma_kinds_disjoint(t);
}

/// Recognition ignores case: two strings with the same lower-case form are
/// recognised alike by every parser.
pub proof fn lemma_recognition_ignores_case(a: Seq<char>, b: Seq<char>)
    requires
        lowercase_of(a) == lowercase_of(b),
    ensures
        audio_format_of(lowercase_of(a)) == audio_format_of(lowercase_of(b)),
        compression_format_of(lowercase_of(a)) == compression_format_of(lowercase_of(b)),
        document_format_of(lowercase_of(a)) == document_format_of(lowercase_of(b)),
        image_format_of(lowercase_of(a)) == image_format_of(lowercase_of(b)),
        video_format_of(lowercase_of(a)) == video_format_of(lowercase_of(b)),
        file_format_of(lowercase_of(lowercase_of(a))) == file_format_of(
            lowercase_of(lowercase_of(b)),
        ),
{
}

/// For ASCII text, recognition ignores case: a string, its ASCII upper-case
/// form and its ASCII lower-case form are all ASCII, and every parser
/// recognises them alike (each parser's contract recognises ASCII text by
/// its ASCII lower-case form).
pub proof fn lemma_recognition_ignores_ascii_case(s: Seq<char>)
    requires
        is_ascii_chars(s),
    ensures
        is_ascii_chars(ascii_uppercase(s)),
        is_ascii_chars(ascii_lowercase(s)),
        ascii_lowercase(ascii_uppercase(s)) == ascii_lowercase(s),
        ascii_lowercase(ascii_lowercase(s)) == ascii_lowercase(s),
        file_format_of(ascii_lowercase(ascii_uppercase(s))) == file_format_of(ascii_lowercase(s)),
        file_format_of(ascii_lowercase(ascii_lowercase(s))) == file_format_of(ascii_lowercase(s)),
        image_format_of(ascii_lowercase(ascii_uppercase(s))) == image_format_of(ascii_lowercase(s)),
        video_format_of(ascii_lowercase(ascii_uppercase(s))) == video_format_of(ascii_lowercase(s)),
        audio_format_of(ascii_lowercase(ascii_uppercase(s))) == audio_format_of(ascii_lowercase(s)),
        document_format_of(ascii_lowercase(ascii_uppercase(s))) == document_format_of(
            ascii_lowercase(s),
        ),
        compression_format_of(ascii_lowercase(ascii_uppercase(s))) == compression_format_of(
            ascii_lowercase(s),
        ),
{
    lemma_ascii_lowercase_stays_ascii(s);
    lemma_ascii_lowercase_of_uppercase(s);
    lemma_ascii_lowercase_idempotent(s);
}

/// The extensions that name formats, spelled out character by character.
pub proof fn lemma_extension_spellings()
    ensures
        "gif"@ == seq!['g', 'i', 'f'],
        "jpeg"@ == seq!['j', 'p', 'e', 'g'],
        "jpg"@ == seq!['j', 'p', 'g'],
        "png"@ == seq!['p', 'n', 'g'],
        "svg"@ == seq!['s', 'v', 'g'],
        "mkv"@ == seq!['m', 'k', 'v'],
        "mp4"@ == seq!['m', 'p', '4'],
        "webm"@ == seq!['w', 'e', 'b', 'm'],
        "mp3"@ == seq!['m', 'p', '3'],
        "wav"@ == seq!['w', 'a', 'v'],
        "doc"@ == seq!['d', 'o', 'c'],
        "docx"@ == seq!['d', 'o', 'c', 'x'],
        "json"@ == seq!['j', 's', 'o', 'n'],
        "pdf"@ == seq!['p', 'd', 'f'],
        "toml"@ == seq!['t', 'o', 'm', 'l'],
        "txt"@ == seq!['t', 'x', 't'],
        "yaml"@ == seq!['y', 'a', 'm', 'l'],
        "gz"@ == seq!['g', 'z'],
        "zip"@ == seq!['z', 'i', 'p'],
{
    reveal_strlit("gif");
    assert("gif"@ =~= seq!['g', 'i', 'f']);
    reveal_strlit("jpeg");
    assert("jpeg"@ =~= seq!['j', 'p', 'e', 'g']);
    reveal_strlit("jpg");
    assert("jpg"@ =~= seq!['j', 'p', 'g']);
    reveal_strlit("png");
    assert("png"@ =~= seq!['p', 'n', 'g']);
    reveal_strlit("svg");
    assert("svg"@ =~= seq!['s', 'v', 'g']);
    reveal_strlit("mkv");
    assert("mkv"@ =~= seq!['m', 'k', 'v']);
    reveal_strlit("mp4");
    assert("mp4"@ =~= seq!['m', 'p', '4']);
    reveal_strlit("webm");
    assert("webm"@ =~= seq!['w', 'e', 'b', 'm']);
    reveal_strlit("mp3");
    assert("mp3"@ =~= seq!['m', 'p', '3']);
    reveal_strlit("wav");
    assert("wav"@ =~= seq!['w', 'a', 'v']);
    reveal_strlit("doc");
    assert("doc"@ =~= seq!['d', 'o', 'c']);
    reveal_strlit("docx");
    assert("docx"@ =~= seq!['d', 'o', 'c', 'x']);
    reveal_strlit("json");
    assert("json"@ =~= seq!['j', 's', 'o', 'n']);
    reveal_strlit("pdf");
    assert("pdf"@ =~= seq!['p', 'd', 'f']);
    reveal_strlit("toml");
    assert("toml"@ =~= seq!['t', 'o', 'm', 'l']);
    reveal_strlit("txt");
    assert("txt"@ =~= seq!['t', 'x', 't']);
    reveal_strlit("yaml");
    assert("yaml"@ =~= seq!['y', 'a', 'm', 'l']);
    reveal_strlit("gz");
    assert("gz"@ =~= seq!['g', 'z']);
    reveal_strlit("zip");
    assert("zip"@ =~= seq!['z', 'i', 'p']);
}

/// The image parser recognises exactly these extensions, each as its own
/// format, and nothing else; `FileFormat` recognises a image format exactly
/// where the image parser does.
pub proof fn lemma_image_extensions(t: Seq<char>, f: ImageFileFormat)
    ensures
        image_format_of(t) == Some(ImageFileFormat::Gif) <==> (t == seq!['g', 'i', 'f']),
        image_format_of(t) == Some(ImageFileFormat::Jpeg) <==> (t == seq!['j', 'p', 'e', 'g'] || t == seq!['j', 'p', 'g']),
        image_format_of(t) == Some(ImageFileFormat::Png) <==> (t == seq!['p', 'n', 'g']),
        image_format_of(t) == Some(ImageFileFormat::Svg) <==> (t == seq!['s', 'v', 'g']),
        image_format_of(t) is Some <==> (t == seq!['g', 'i', 'f'] || t == seq!['j', 'p', 'e', 'g'] || t == seq!['j', 'p', 'g'] || t == seq!['p', 'n', 'g'] || t == seq!['s', 'v', 'g']),
        file_format_of(t) == Some(FileFormat::Image(f)) <==> image_format_of(t) == Some(f),
{
    lemma_extension_spellings();
    lemma_file_format_by_kind(t);
}

/// The video parser recognises exactly these extensions, each as its own
/// format, and nothing else; `FileFormat` recognises a video format exactly
/// where the video parser does.
pub proof fn lemma_video_extensions(t: Seq<char>, f: VideoFileFormat)
    ensures
        video_format_of(t) == Some(VideoFileFormat::Mkv) <==> (t == seq!['m', 'k', 'v']),
        video_format_of(t) == Some(VideoFileFormat::Mp4) <==> (t == seq!['m', 'p', '4']),
        video_format_of(t) == Some(VideoFileFormat::Webm) <==> (t == seq!['w', 'e', 'b', 'm']),
        video_format_of(t) is Some <==> (t == seq!['m', 'k', 'v'] || t == seq!['m', 'p', '4'] || t == seq!['w', 'e', 'b', 'm']),
        file_format_of(t) == Some(FileFormat::Video(f)) <==> video_format_of(t) == Some(f),
{
    lemma_extension_spellings();
    lemma_file_format_by_kind(t);
}

/// The audio parser recognises exactly these extensions, each as its own
/// format, and nothing else; `FileFormat` recognises a audio format exactly
/// where the audio parser does.
pub proof fn lemma_audio_extensions(t: Seq<char>, f: AudioFileFormat)
    ensures
        audio_format_of(t) == Some(AudioFileFormat::Mp3) <==> (t == seq!['m', 'p', '3']),
        audio_format_of(t) == Some(AudioFileFormat::Wav) <==> (t == seq!['w', 'a', 'v']),
        audio_format_of(t) is Some <==> (t == seq!['m', 'p', '3'] || t == seq!['w', 'a', 'v']),
        file_format_of(t) == Some(FileFormat::Audio(f)) <==> audio_format_of(t) == Some(f),
{
    lemma_extension_spellings();
    lemma_file_format_by_kind(t);
}

/// The document parser recognises exactly these extensions, each as its own
/// format, and nothing else; `FileFormat` recognises a document format exactly
/// where the document parser does.
pub proof fn lemma_document_extensions(t: Seq<char>, f: DocumentFileFormat)
    ensures
        document_format_of(t) == Some(DocumentFileFormat::Doc) <==> (t == seq!['d', 'o', 'c']),
        document_format_of(t) == Some(DocumentFileFormat::Docx) <==> (t == seq!['d', 'o', 'c', 'x']),
        document_format_of(t) == Some(DocumentFileFormat::Json) <==> (t == seq!['j', 's', 'o', 'n']),
        document_format_of(t) == Some(DocumentFileFormat::Pdf) <==> (t == seq!['p', 'd', 'f']),
        document_format_of(t) == Some(DocumentFileFormat::Toml) <==> (t == seq!['t', 'o', 'm', 'l']),
        document_format_of(t) == Some(DocumentFileFormat::Txt) <==> (t == seq!['t', 'x', 't']),
        document_format_of(t) == Some(DocumentFileFormat::Yaml) <==> (t == seq!['y', 'a', 'm', 'l']),
        document_format_of(t) is Some <==> (t == seq!['d', 'o', 'c'] || t == seq!['d', 'o', 'c', 'x'] || t == seq!['j', 's', 'o', 'n'] || t == seq!['p', 'd', 'f'] || t == seq!['t', 'o', 'm', 'l'] || t == seq!['t', 'x', 't'] || t == seq!['y', 'a', 'm', 'l']),
        file_format_of(t) == Some(FileFormat::Document(f)) <==> document_format_of(t) == Some(f),
{
    lemma_extension_spellings();
    lemma_file_format_by_kind(t);
    assert(seq!['d', 'o', 'c'].len() != seq!['d', 'o', 'c', 'x'].len());
}

/// The compression parser recognises exactly these extensions, each as its own
/// format, and nothing else; `FileFormat` recognises a compression format exactly
/// where the compression parser does.
pub proof fn lemma_compression_extensions(t: Seq<char>, f: CompressionFormat)
    ensures
        compression_format_of(t) == Some(CompressionFormat::Gzip) <==> (t == seq!['g', 'z']),
        compression_format_of(t) == Some(CompressionFormat::Zip) <==> (t == seq!['z', 'i', 'p']),
        compression_format_of(t) is Some <==> (t == seq!['g', 'z'] || t == seq!['z', 'i', 'p']),
        file_format_of(t) == Some(FileFormat::Compression(f)) <==> compression_format_of(t) == Some(f),
{
    lemma_extension_spellings();
    lemma_file_format_by_kind(t);
}

/// `FileFormat` recognises exactly the nineteen extensions of the five
/// kinds, and nothing else.
pub proof fn lemma_file_format_extensions(t: Seq<char>)
    ensures
        file_format_of(t) is Some <==> (t == seq!['g', 'i', 'f'] || t == seq!['j', 'p', 'e', 'g'] || t == seq!['j', 'p', 'g'] || t == seq!['p', 'n', 'g'] || t == seq!['s', 'v', 'g'] || t == seq!['m', 'k', 'v'] || t == seq!['m', 'p', '4'] || t == seq!['w', 'e', 'b', 'm'] || t == seq!['m', 'p', '3'] || t == seq!['w', 'a', 'v'] || t == seq!['d', 'o', 'c'] || t == seq!['d', 'o', 'c', 'x'] || t == seq!['j', 's', 'o', 'n'] || t == seq!['p', 'd', 'f'] || t == seq!['t', 'o', 'm', 'l'] || t == seq!['t', 'x', 't'] || t == seq!['y', 'a', 'm', 'l'] || t == seq!['g', 'z'] || t == seq!['z', 'i', 'p']),
{
    lemma_extension_spellings();
    lemma_file_format_by_kind(t);
}

} // verus!
