use crate::app_data::AppData;
use crate::command::{conversion_command, conversion_command_of, ToolCommand, ToolCommandView};
use crate::error::{is_same_formats_error, same_formats_error_view, AppErr, AppErrView, BAD_REQUEST};
use crate::format::{
    ascii_lowercase, file_format_of, lowercase_of, str_eq, to_lowercase, FileFormat,
};
use vstd::utf8::is_ascii_chars;
use std::path::Path;
use vstd::prelude::*;
use vstd::string::*;

verus! {

/// The query of a conversion request: the extension to convert to.
pub struct ConvertQuery {
    pub new_file_format: String,
}

/// The extension of a path, as `Path::extension` gives it. The path is read
/// with the build target's path syntax (Windows also separates at a backslash).
pub uninterp spec fn path_extension_of(path: Seq<char>) -> Option<Seq<char>>;

/// The file stem of a path, as `Path::file_stem` gives it, read with the
/// build target's path syntax like the extension.
pub uninterp spec fn path_stem_of(path: Seq<char>) -> Option<Seq<char>>;

pub open spec fn string_option_view(o: Option<String>) -> Option<Seq<char>> {
    match o {
        Some(s) => Some(s@),
        None => None,
    }
}

/// Calls `Path::extension` on the path that the string names, and gives the
/// extension as a string. Its result depends on the string alone and is
/// named; the rules by which std splits a path into components are not
/// stated.
#[verifier::external_body]
fn file_extension(file_name: &str) -> (r: Option<String>)
    ensures
        string_option_view(r) == path_extension_of(file_name@),
{
    match Path::new(file_name).extension() {
        Some(e) => e.to_str().map(String::from),
        None => None,
    }
}

/// Calls `Path::file_stem` on the path that the string names, and gives the
/// stem as a string. Named, like the extension.
#[verifier::external_body]
fn file_stem(file_name: &str) -> (r: Option<String>)
    ensures
        string_option_view(r) == path_stem_of(file_name@),
{
    match Path::new(file_name).file_stem() {
        Some(s) => s.to_str().map(String::from),
        None => None,
    }
}

/// A conversion is allowed between two formats that differ up to case.
pub open spec fn conversion_allowed(new_file_format: Seq<char>, file_extension: Seq<char>) -> bool {
    lowercase_of(new_file_format) != lowercase_of(file_extension)
}

/// What `can_convert` answers for a target format and an extension: `Ok`
/// where the conversion is allowed, the same-formats error otherwise. For
/// ASCII text the two are compared by their ASCII lower-case forms.
pub open spec fn can_convert_answer(
    r: Result<(), AppErr>,
    new_file_format: Seq<char>,
    file_extension: Seq<char>,
) -> bool {
    &&& (r is Ok <==> conversion_allowed(new_file_format, file_extension))
    &&& (is_ascii_chars(new_file_format) && is_ascii_chars(file_extension) ==> (r is Ok <==> ascii_lowercase(new_file_format) != ascii_lowercase(file_extension)))
    &&& (r matches Err(e) ==> is_same_formats_error(e))
}

/// Whether a conversion is allowed does not depend on which of the two
/// formats is the target, and a format never converts to itself.
pub proof fn lemma_conversion_allowed_symmetric(a: Seq<char>, b: Seq<char>)
    ensures
        conversion_allowed(a, b) == conversion_allowed(b, a),
        !conversion_allowed(a, a),
{
}

/// Refuses a conversion between two lower-cased formats that are the same.
pub fn check_formats_differ(new_file_format_lower: &str, file_extension_lower: &str) -> (r:
    Result<(), AppErr>)
    ensures
        r is Ok <==> new_file_format_lower@ != file_extension_lower@,
        r matches Err(e) ==> is_same_formats_error(e),
{
    if str_eq(new_file_format_lower, file_extension_lower) {
        return Err(AppErr::new(BAD_REQUEST, "err: the same formats"));
    }
    Ok(())
}

/// Refuses a conversion to the format that the file already has, ignoring
/// case.
pub fn can_convert(new_file_format: &str, file_extension: &str) -> (r: Result<(), AppErr>)
    ensures
        can_convert_answer(r, new_file_format@, file_extension@),
{
    let a = to_lowercase(new_file_format);
    let b = to_lowercase(file_extension);
    check_formats_differ(a.as_str(), b.as_str())
}

/// The first decision on an upload, as plain values: nothing where the file
/// name has no extension, otherwise `Ok` where the conversion is allowed
/// and the same-formats error where it is not.
pub open spec fn upload_check_of(file_name: Seq<char>, new_file_format: Seq<char>) -> Option<
    Result<(), AppErrView>,
> {
    match path_extension_of(file_name) {
        None => None,
        Some(ext) => Some(
            if conversion_allowed(new_file_format, ext) {
                Ok(())
            } else {
                Err(same_formats_error_view())
            },
        ),
    }
}

pub open spec fn upload_check_view(r: Option<Result<(), AppErr>>) -> Option<Result<(), AppErrView>> {
    match r {
        None => None,
        Some(Ok(())) => Some(Ok(())),
        Some(Err(e)) => Some(Err(e@)),
    }
}

/// The first decision on an upload: `None` where the file name has no
/// extension (the upload cannot be handled), otherwise what `can_convert`
/// answers for the requested format and the file's extension.
pub fn check_upload(file_name: &str, new_file_format: &str) -> (r: Option<Result<(), AppErr>>)
    ensures
        match path_extension_of(file_name@) {
            None => r is None,
            Some(ext) => r matches Some(res) && can_convert_answer(res, new_file_format@, ext),
        },
        upload_check_view(r) == upload_check_of(file_name@, new_file_format@),
{
    match file_extension(file_name) {
        None => None,
        Some(ext) => Some(can_convert(new_file_format, ext.as_str())),
    }
}

/// Whether a field of a multipart upload is the one that carries the file.
pub fn is_upload_field(field_name: &str) -> (r: bool)
    ensures
        r == (field_name@ == "file"@),
{
    str_eq(field_name, "file")
}

/// The paths of one conversion.
#[derive(Debug)]
pub struct ConversionPaths {
    pub download_folder: String,
    pub input_file_path: String,
    pub output_file_path: String,
}

pub struct ConversionPathsView {
    pub download_folder: Seq<char>,
    pub input_file_path: Seq<char>,
    pub output_file_path: Seq<char>,
}

impl View for ConversionPaths {
    type V = ConversionPathsView;

    open spec fn view(&self) -> ConversionPathsView {
        ConversionPathsView {
            download_folder: self.download_folder@,
            input_file_path: self.input_file_path@,
            output_file_path: self.output_file_path@,
        }
    }
}

/// A folder named by the random string inside the temporary folder; in it
/// the upload under its own name, and the result under the upload's stem
/// with the new extension.
pub open spec fn conversion_paths_of(
    temp_folder: Seq<char>,
    rnd_string: Seq<char>,
    file_name: Seq<char>,
    file_stem: Seq<char>,
    new_file_format: Seq<char>,
) -> ConversionPathsView {
    let download_folder = temp_folder + "/"@ + rnd_string;
    ConversionPathsView {
        download_folder,
        input_file_path: download_folder + "/"@ + file_name,
        output_file_path: download_folder + "/"@ + file_stem + "."@ + new_file_format,
    }
}

pub fn conversion_paths(
    temp_folder: &str,
    rnd_string: &str,
    file_name: &str,
    file_stem: &str,
    new_file_format: &str,
) -> (r: ConversionPaths)
    ensures
        r@ == conversion_paths_of(
            temp_folder@,
            rnd_string@,
            file_name@,
            file_stem@,
            new_file_format@,
        ),
{
    let download_folder = String::from_str(temp_folder).concat("/").concat(rnd_string);
    let input_file_path = download_folder.clone().concat("/").concat(file_name);
    let output_file_path = download_folder.clone().concat("/").concat(file_stem).concat(
        ".",
    ).concat(new_file_format);
    ConversionPaths { download_folder, input_file_path, output_file_path }
}

/// The input and the output of a conversion lie directly in its download
/// folder, which lies directly in the temporary folder.
pub proof fn lemma_paths_in_download_folder(
    temp_folder: Seq<char>,
    rnd_string: Seq<char>,
    file_name: Seq<char>,
    file_stem: Seq<char>,
    new_file_format: Seq<char>,
)
    ensures
        ({
            let p = conversion_paths_of(
                temp_folder,
                rnd_string,
                file_name,
                file_stem,
                new_file_format,
            );
            let d = p.download_folder;
            &&& d == temp_folder + "/"@ + rnd_string
            &&& p.input_file_path.take(d.len() + 1int) == d + "/"@
            &&& p.output_file_path.take(d.len() + 1int) == d + "/"@
        }),
{
    reveal_strlit("/");
    let p = conversion_paths_of(temp_folder, rnd_string, file_name, file_stem, new_file_format);
    let d = p.download_folder;
    assert(p.input_file_path.take(d.len() + 1int) =~= d + "/"@);
    assert(p.output_file_path.take(d.len() + 1int) =~= d + "/"@);
}

/// The work of one conversion: its paths, and the tool that converts, or
/// `None` where the target format is not one that is supported.
#[derive(Debug)]
pub struct ConversionPlan {
    pub paths: ConversionPaths,
    pub command: Option<ToolCommand>,
}

pub struct ConversionPlanView {
    pub paths: ConversionPathsView,
    pub command: Option<ToolCommandView>,
}

impl View for ConversionPlan {
    type V = ConversionPlanView;

    open spec fn view(&self) -> ConversionPlanView {
        ConversionPlanView { paths: self.paths@, command: command_option_view(self.command) }
    }
}

pub open spec fn command_option_view(o: Option<ToolCommand>) -> Option<ToolCommandView> {
    match o {
        Some(c) => Some(c@),
        None => None,
    }
}

/// The tool for a recognised target format, converting the plan's input
/// to its output; none where the format is not recognised.
pub open spec fn planned_command(
    format: Option<FileFormat>,
    p: ConversionPathsView,
) -> Option<ToolCommandView> {
    match format {
        Some(f) => Some(conversion_command_of(f, p.input_file_path, p.output_file_path)),
        None => None,
    }
}

/// A plan is made exactly when the file name has a stem. Its folder is the
/// random name inside the temporary folder, its input the upload's name in
/// that folder, and its output the stem with the requested extension there.
/// It has a tool exactly when the requested format is recognised, and then
/// the tool for that format, from the input to the output.
pub proof fn lemma_plan_layout_and_tool(
    temp_folder: Seq<char>,
    file_name: Seq<char>,
    new_file_format: Seq<char>,
    rnd_string: Seq<char>,
)
    ensures
        path_stem_of(file_name) is None ==> conversion_plan_of(
            temp_folder,
            file_name,
            new_file_format,
            rnd_string,
        ) is None,
        path_stem_of(file_name) matches Some(stem) ==> {
            let folder = temp_folder + "/"@ + rnd_string;
            let input = folder + "/"@ + file_name;
            let output = folder + "/"@ + stem + "."@ + new_file_format;
            &&& conversion_plan_of(temp_folder, file_name, new_file_format, rnd_string) matches Some(
                plan,
            )
            &&& plan.paths.download_folder == folder
            &&& plan.paths.input_file_path == input
            &&& plan.paths.output_file_path == output
            &&& (file_format_of(lowercase_of(lowercase_of(new_file_format))) matches Some(f)
                ==> plan.command == Some(conversion_command_of(f, input, output)))
            &&& (file_format_of(lowercase_of(lowercase_of(new_file_format))) is None
                ==> plan.command is None)
        },
{
}

/// The plan for converting an upload, as plain values: nothing where the
/// file name has no stem, otherwise the paths under the random folder name
/// and the tool for the target format, if it is recognised.
pub open spec fn conversion_plan_of(
    temp_folder: Seq<char>,
    file_name: Seq<char>,
    new_file_format: Seq<char>,
    rnd_string: Seq<char>,
) -> Option<ConversionPlanView> {
    match path_stem_of(file_name) {
        None => None,
        Some(stem) => {
            let p = conversion_paths_of(temp_folder, rnd_string, file_name, stem, new_file_format);
            Some(
                ConversionPlanView {
                    paths: p,
                    command: planned_command(
                        file_format_of(lowercase_of(lowercase_of(new_file_format))),
                        p,
                    ),
                },
            )
        },
    }
}

pub open spec fn plan_option_view(o: Option<ConversionPlan>) -> Option<ConversionPlanView> {
    match o {
        Some(p) => Some(p@),
        None => None,
    }
}

/// The plan for converting an upload, once its bytes are in: `None` where
/// the file name has no stem, otherwise the paths under the random folder
/// name and the tool for the target format, which is recognised as
/// `FileFormat::from_str` recognises it.
pub fn conversion_plan(
    app_data: &AppData,
    file_name: &str,
    new_file_format: &str,
    rnd_string: &str,
) -> (r: Option<ConversionPlan>)
    ensures
        match path_stem_of(file_name@) {
            None => r is None,
            Some(stem) => r matches Some(plan) && {
                let p = conversion_paths_of(
                    app_data.temp_folder@,
                    rnd_string@,
                    file_name@,
                    stem,
                    new_file_format@,
                );
                &&& plan.paths@ == p
                &&& command_option_view(plan.command) == planned_command(
                    file_format_of(lowercase_of(lowercase_of(new_file_format@))),
                    p,
                )
                &&& is_ascii_chars(new_file_format@) ==> command_option_view(plan.command)
                    == planned_command(file_format_of(ascii_lowercase(new_file_format@)), p)
            },
        },
        plan_option_view(r) == conversion_plan_of(
            app_data.temp_folder@,
            file_name@,
            new_file_format@,
            rnd_string@,
        ),
{
    let stem = match file_stem(file_name) {
        Some(s) => s,
        None => {
            return None;
        },
    };
    let paths = conversion_paths(
        app_data.temp_folder.as_str(),
        rnd_string,
        file_name,
        stem.as_str(),
        new_file_format,
    );
    let command = match <FileFormat as std::str::FromStr>::from_str(new_file_format) {
        Ok(f) => Some(
            conversion_command(f, paths.input_file_path.as_str(), paths.output_file_path.as_str()),
        ),
        Err(_) => None,
    };
    Some(ConversionPlan { paths, command })
}

/// The answer to a health check.
pub fn ping() -> (r: &'static str)
    ensures
        r@ == "pong"@,
{
    "pong"
}

} // verus!
