//! Where processed files are written, and what the front end reports of a run.

use vstd::prelude::*;

use crate::encode::{format_extension, OutputFormat};
use crate::error::append_str;
use crate::text::{ascii_lower, ascii_lower_text, decimal, push_decimal, str_eq};
use crate::tui::app::MenuAction;

verus! {

// ---------------------------------------------------------------------------
// std::path, trusted
// ---------------------------------------------------------------------------

/// What `Path::parent` gives for a path: the path without its final component.
pub uninterp spec fn parent_of(path: Seq<char>) -> Option<Seq<char>>;

/// What `Path::file_stem` gives for a path: its file name without the extension.
pub uninterp spec fn stem_of(path: Seq<char>) -> Option<Seq<char>>;

/// What `Path::extension` gives for a path: the extension of its file name.
pub uninterp spec fn extension_of(path: Seq<char>) -> Option<Seq<char>>;

/// What `Path::join` gives for a directory and a file name.
pub uninterp spec fn joined(dir: Seq<char>, name: Seq<char>) -> Seq<char>;

/// What `Path::with_file_name` gives for a path and a new file name.
pub uninterp spec fn renamed(path: Seq<char>, name: Seq<char>) -> Seq<char>;

/// `Path::parent` of `path`. The parts of a path given as UTF-8 text are UTF-8
/// text too, so the conversion back to a string is exact.
#[verifier::external_body]
pub(crate) fn path_parent(path: &str) -> (r: Option<String>)
    ensures
        match r {
            Some(p) => parent_of(path@) == Some(p@),
            None => parent_of(path@) is None,
        },
{
    match std::path::Path::new(path).parent() {
        Some(p) => Some(p.to_string_lossy().into_owned()),
        None => None,
    }
}

/// `Path::file_stem` of `path`.
#[verifier::external_body]
pub(crate) fn path_file_stem(path: &str) -> (r: Option<String>)
    ensures
        match r {
            Some(p) => stem_of(path@) == Some(p@),
            None => stem_of(path@) is None,
        },
{
    match std::path::Path::new(path).file_stem() {
        Some(p) => Some(p.to_string_lossy().into_owned()),
        None => None,
    }
}

/// `Path::extension` of `path`.
#[verifier::external_body]
pub(crate) fn path_extension(path: &str) -> (r: Option<String>)
    ensures
        match r {
            Some(p) => extension_of(path@) == Some(p@),
            None => extension_of(path@) is None,
        },
{
    match std::path::Path::new(path).extension() {
        Some(p) => Some(p.to_string_lossy().into_owned()),
        None => None,
    }
}

/// `Path::join` of `dir` and `name`.
#[verifier::external_body]
pub(crate) fn path_join(dir: &str, name: &str) -> (r: String)
    ensures
        r@ == joined(dir@, name@),
{
    std::path::Path::new(dir).join(name).to_string_lossy().into_owned()
}

/// `Path::with_file_name` of `path` and `name`.
#[verifier::external_body]
pub(crate) fn path_with_file_name(path: &str, name: &str) -> (r: String)
    ensures
        r@ == renamed(path@, name@),
{
    std::path::Path::new(path).with_file_name(name).to_string_lossy().into_owned()
}

// ---------------------------------------------------------------------------
// Output paths
// ---------------------------------------------------------------------------

/// The directory output goes to: the chosen one, else the input's parent, else `.`.
pub open spec fn output_dir_spec(input: Seq<char>, output_dir: Option<Seq<char>>) -> Seq<char> {
    match output_dir {
        Some(d) => d,
        None => match parent_of(input) {
            Some(p) => p,
            None => "."@,
        },
    }
}

/// The output file name: the input's stem, `_out.`, then the new extension if
/// one is given, else the input's, else `pdf`.
pub open spec fn output_name_spec(input: Seq<char>, new_ext: Option<Seq<char>>) -> Seq<char> {
    let stem = match stem_of(input) {
        Some(s) => s,
        None => Seq::empty(),
    };
    let ext = match new_ext {
        Some(e) => e,
        None => match extension_of(input) {
            Some(e) => e,
            None => "pdf"@,
        },
    };
    stem + "_out."@ + ext
}

/// Where the output for `input` is written.
pub open spec fn output_path_spec(input: Seq<char>, output_dir: Option<Seq<char>>, new_ext: Option<Seq<char>>) -> Seq<char> {
    joined(output_dir_spec(input, output_dir), output_name_spec(input, new_ext))
}

/// The file name for one exported page: `<stem>_<page number>.<extension>`.
pub open spec fn page_file_name(stem: Seq<char>, page: nat, ext: Seq<char>) -> Seq<char> {
    stem + "_"@ + decimal(page + 1) + "."@ + ext
}

/// Where page `page` (counted from 0) of `input` is exported: the output path
/// with the format's extension, renamed per page when the document has more
/// than one page.
pub open spec fn page_image_path_spec(
    input: Seq<char>,
    output_dir: Option<Seq<char>>,
    format: OutputFormat,
    page: nat,
    page_count: nat,
) -> Seq<char> {
    let ext = format_extension(format);
    let out = output_path_spec(input, output_dir, Some(ext));
    if page_count > 1 {
        let stem = match stem_of(out) {
            Some(s) => s,
            None => Seq::empty(),
        };
        renamed(out, page_file_name(stem, page, ext))
    } else {
        out
    }
}

/// The output file name for `input` given the input's stem and extension as
/// `Path` reports them (see [`output_name_spec`]).
pub fn output_file_name(stem: Option<&str>, input_ext: Option<&str>, new_ext: Option<&str>) -> (r: String)
    ensures
        r@ == ({
            let s = match stem { Some(s) => s@, None => Seq::<char>::empty() };
            let e = match new_ext {
                Some(e) => e@,
                None => match input_ext { Some(e) => e@, None => "pdf"@ },
            };
            s + "_out."@ + e
        }),
{
    let mut r = String::new();
    match stem {
        Some(s) => append_str(&mut r, s),
        None => {}
    }
    append_str(&mut r, "_out.");
    match new_ext {
        Some(e) => append_str(&mut r, e),
        None => match input_ext {
            Some(e) => append_str(&mut r, e),
            None => append_str(&mut r, "pdf"),
        },
    }
    r
}

/// Where the output for `input` is written: the stem of `input` followed by
/// `_out` and the extension (`new_ext`, else the input's own, else `pdf`), in
/// `output_dir`, else beside the input, else in the current directory.
pub fn output_path(input: &str, output_dir: &Option<String>, new_ext: Option<&str>) -> (r: String)
    ensures
        r@ == output_path_spec(input@, match output_dir { Some(d) => Some(d@), None => None },
            match new_ext { Some(e) => Some(e@), None => None }),
{
    let parent = path_parent(input);
    let dir: String = match output_dir {
        Some(d) => d.clone(),
        None => match parent {
            Some(p) => p,
            None => String::from_str("."),
        },
    };
    let stem = path_file_stem(input);
    let ext = path_extension(input);
    let stem_ref: Option<&str> = match &stem { Some(s) => Some(s.as_str()), None => None };
    let ext_ref: Option<&str> = match &ext { Some(e) => Some(e.as_str()), None => None };
    let name = output_file_name(stem_ref, ext_ref, new_ext);
    path_join(dir.as_str(), name.as_str())
}

/// Where page `page` (counted from 0) of a document of `page_count` pages read
/// from `input` is exported in `format`.
pub fn page_image_path(
    input: &str,
    output_dir: &Option<String>,
    format: OutputFormat,
    page: u32,
    page_count: usize,
) -> (r: String)
    ensures
        r@ == page_image_path_spec(input@, match output_dir { Some(d) => Some(d@), None => None },
            format, page as nat, page_count as nat),
{
    let ext = format.extension();
    let out = output_path(input, output_dir, Some(ext));
    if page_count > 1 {
        let stem = path_file_stem(out.as_str());
        let mut name = String::new();
        match &stem {
            Some(s) => append_str(&mut name, s.as_str()),
            None => {}
        }
        append_str(&mut name, "_");
        push_decimal(&mut name, (page as u64) + 1);
        append_str(&mut name, ".");
        append_str(&mut name, ext);
        assert(name@ == page_file_name(match stem_of(out@) { Some(s) => s, None => Seq::empty() }, page as nat, format_extension(format)));
        path_with_file_name(out.as_str(), name.as_str())
    } else {
        out
    }
}

/// Whether `path` names a PDF file: its extension is `pdf` in any ASCII case.
pub open spec fn is_pdf_path(path: Seq<char>) -> bool {
    match extension_of(path) {
        Some(e) => ascii_lower(e) == "pdf"@,
        None => false,
    }
}

/// Whether `path` names a PDF file by its extension, ignoring ASCII case.
pub fn has_pdf_extension(path: &str) -> (b: bool)
    ensures
        b == is_pdf_path(path@),
{
    match path_extension(path) {
        Some(e) => {
            let lowered = ascii_lower_text(e.as_str());
            str_eq(lowered.as_str(), "pdf")
        }
        None => false,
    }
}


// ---------------------------------------------------------------------------
// Running a front-end action
// ---------------------------------------------------------------------------

/// What running a front-end action amounts to.
pub enum ActionPlan {
    /// Trim each input file and write it to its paired output path.
    Trim(Vec<(String, String)>),
    /// Resize each input file to its bleed box and write it to its paired output path.
    Resize(Vec<(String, String)>),
    /// Export every page of every input file as an image.
    Export { format: OutputFormat, dpi: u32 },
    /// Nothing to run; report the message.
    Report(String),
}

/// An [`ActionPlan`] as plain values.
pub enum PlanView {
    Trim(Seq<(Seq<char>, Seq<char>)>),
    Resize(Seq<(Seq<char>, Seq<char>)>),
    Export { format: OutputFormat, dpi: u32 },
    Report(Seq<char>),
}

pub open spec fn pairs_view(v: Seq<(String, String)>) -> Seq<(Seq<char>, Seq<char>)> {
    v.map_values(|p: (String, String)| (p.0@, p.1@))
}

impl View for ActionPlan {
    type V = PlanView;

    open spec fn view(&self) -> PlanView {
        match self {
            ActionPlan::Trim(pairs) => PlanView::Trim(pairs_view(pairs@)),
            ActionPlan::Resize(pairs) => PlanView::Resize(pairs_view(pairs@)),
            ActionPlan::Export { format, dpi } => PlanView::Export { format: *format, dpi: *dpi },
            ActionPlan::Report(m) => PlanView::Report(m@),
        }
    }
}

/// Where the front end writes the result for `input`: over the input when
/// overwriting, else beside it (the front end does not use a chosen output
/// directory for trimming and resizing).
pub open spec fn tui_output_spec(input: Seq<char>, overwrite: bool) -> Seq<char> {
    if overwrite { input } else { output_path_spec(input, None, None) }
}

/// Each input paired with where its result goes.
pub open spec fn output_pairs_spec(files: Seq<Seq<char>>, overwrite: bool) -> Seq<(Seq<char>, Seq<char>)> {
    files.map_values(|f: Seq<char>| (f, tui_output_spec(f, overwrite)))
}

/// What running the front-end action `action` amounts to, for the loaded
/// `files`; the actions are taken in menu order (trim, resize, export, then
/// one that is not implemented), the rest are unknown.
pub open spec fn plan_spec(
    action: MenuAction,
    files: Seq<Seq<char>>,
    overwrite: bool,
    export_format: Seq<char>,
    export_dpi: u32,
) -> PlanView {
    match action {
        MenuAction::TrimMarks => PlanView::Trim(output_pairs_spec(files, overwrite)),
        MenuAction::ResizeToBleed => PlanView::Resize(output_pairs_spec(files, overwrite)),
        MenuAction::ExportImages => PlanView::Export {
            format: crate::encode::format_named(Some(export_format)),
            dpi: export_dpi,
        },
        MenuAction::RemapColors => PlanView::Report("Preview not yet implemented"@),
        _ => PlanView::Report("Unknown action"@),
    }
}

fn tui_output(input: &String, overwrite: bool) -> (r: String)
    ensures
        r@ == tui_output_spec(input@, overwrite),
{
    if overwrite {
        input.clone()
    } else {
        output_path(input.as_str(), &None, None)
    }
}

fn output_pairs(files: &Vec<String>, overwrite: bool) -> (r: Vec<(String, String)>)
    ensures
        pairs_view(r@) == output_pairs_spec(files@.map_values(|s: String| s@), overwrite),
{
    let ghost all = files@.map_values(|s: String| s@);
    let mut r: Vec<(String, String)> = Vec::new();
    let n = files.len();
    let mut i: usize = 0;
    while i < n
        invariant
            n == files@.len(),
            all == files@.map_values(|s: String| s@),
            i <= n,
            r@.len() == i,
            forall|k: int| 0 <= k < i ==> #[trigger] pairs_view(r@)[k] == (all[k], tui_output_spec(all[k], overwrite)),
        decreases n - i,
    {
        let out = tui_output(&files[i], overwrite);
        let input = files[i].clone();
        let ghost before = r@;
        r.push((input, out));
        assert(pairs_view(r@) =~= pairs_view(before).push((all[i as int], tui_output_spec(all[i as int], overwrite))));
        i = i + 1;
    }
    assert(pairs_view(r@) =~= output_pairs_spec(all, overwrite));
    r
}

/// What running the front-end action `action` amounts to (see [`plan_spec`]).
pub fn plan_tui_action(
    action: MenuAction,
    files: &Vec<String>,
    overwrite: bool,
    export_format: &str,
    export_dpi: u32,
) -> (p: ActionPlan)
    ensures
        p@ == plan_spec(action, files@.map_values(|s: String| s@), overwrite, export_format@, export_dpi),
{
    match action {
        MenuAction::TrimMarks => ActionPlan::Trim(output_pairs(files, overwrite)),
        MenuAction::ResizeToBleed => ActionPlan::Resize(output_pairs(files, overwrite)),
        MenuAction::ExportImages => ActionPlan::Export {
            format: OutputFormat::from_name(Some(export_format)),
            dpi: export_dpi,
        },
        MenuAction::RemapColors => ActionPlan::Report(String::from_str("Preview not yet implemented")),
        _ => ActionPlan::Report(String::from_str("Unknown action")),
    }
}

/// Trimming and resizing from the front end write each loaded file to the same
/// place: over the file itself when overwriting, else to `<stem>_out.<ext>`
/// beside it (in its parent directory, `.` when it has none). The plans pair the loaded files, in order, with those places.
pub proof fn law_trim_and_resize_outputs(
    files: Seq<Seq<char>>,
    overwrite: bool,
    export_format: Seq<char>,
    export_dpi: u32,
)
    ensures
        ({
            let trim = plan_spec(MenuAction::TrimMarks, files, overwrite, export_format, export_dpi);
            let resize = plan_spec(MenuAction::ResizeToBleed, files, overwrite, export_format, export_dpi);
            &&& trim matches PlanView::Trim(pairs) && resize matches PlanView::Resize(same) && pairs == same
            &&& trim matches PlanView::Trim(pairs) && pairs.len() == files.len()
                && forall|i: int| 0 <= i < files.len() ==> {
                    &&& (#[trigger] pairs[i]).0 == files[i]
                    &&& overwrite ==> pairs[i].1 == files[i]
                    &&& !overwrite ==> pairs[i].1 == joined(
                        match parent_of(files[i]) {
                            Some(dir) => dir,
                            None => "."@,
                        },
                        output_name_spec(files[i], None),
                    )
                }
        }),
{
}

/// `Trimmed <count> file(s)`.
pub open spec fn trim_message_spec(count: nat) -> Seq<char> {
    "Trimmed "@ + decimal(count) + " file(s)"@
}

/// `Resized <count> file(s) (bleed: <bleed>pt)`.
pub open spec fn resize_message_spec(count: nat, bleed: Seq<char>) -> Seq<char> {
    "Resized "@ + decimal(count) + " file(s) (bleed: "@ + bleed + "pt)"@
}

/// `Exported <total> image(s) (<format>, <dpi>dpi)`.
pub open spec fn export_message_spec(total: nat, format: Seq<char>, dpi: nat) -> Seq<char> {
    "Exported "@ + decimal(total) + " image(s) ("@ + format + ", "@ + decimal(dpi) + "dpi)"@
}

/// The report of trimming `count` files.
pub fn trim_message(count: usize) -> (r: String)
    ensures
        r@ == trim_message_spec(count as nat),
{
    let mut r = String::from_str("Trimmed ");
    push_decimal(&mut r, count as u64);
    append_str(&mut r, " file(s)");
    r
}

/// The report of resizing `count` files with a bleed written as `bleed`.
pub fn resize_message(count: usize, bleed: &str) -> (r: String)
    ensures
        r@ == resize_message_spec(count as nat, bleed@),
{
    let mut r = String::from_str("Resized ");
    push_decimal(&mut r, count as u64);
    append_str(&mut r, " file(s) (bleed: ");
    append_str(&mut r, bleed);
    append_str(&mut r, "pt)");
    r
}

/// The report of exporting `total` images in `format` at `dpi`.
pub fn export_message(total: u64, format: &str, dpi: u32) -> (r: String)
    ensures
        r@ == export_message_spec(total as nat, format@, dpi as nat),
{
    let mut r = String::from_str("Exported ");
    push_decimal(&mut r, total);
    append_str(&mut r, " image(s) (");
    append_str(&mut r, format);
    append_str(&mut r, ", ");
    push_decimal(&mut r, dpi as u64);
    append_str(&mut r, "dpi)");
    r
}

} // verus!
