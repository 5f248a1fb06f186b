//! An image conversion job: its settings and the converter invocation it
//! plans.

use vstd::prelude::*;
use vstd::string::*;
use crate::correlate::spec_strip_dir;
use crate::correlate::strip_dir;
use crate::report::BatchStatus;
use crate::strutil::find_from;
use crate::strutil::lemma_find_from;
use crate::strutil::find_char_from;
use crate::strutil::copy_range;

verus! {

pub struct ImgConvert {
    pub out_directory: String,
    pub status: BatchStatus,
    pub format_in: String,
    pub format_out: String,
    pub input_file: String,
}

impl ImgConvert {
    /// A fresh job; the caller supplies the default output directory.
    pub fn new(default_directory: String) -> (m: Self)
        ensures
            m.out_directory@ == default_directory@,
            m.status == BatchStatus::Idle,
            m.format_in@.len() == 0,
            m.format_out@ == "None"@,
            m.input_file@.len() == 0,
    {
        ImgConvert {
            out_directory: default_directory,
            status: BatchStatus::Idle,
            format_in: String::new(),
            format_out: "None".to_owned(),
            input_file: String::new(),
        }
    }

    /// Mark the job as running.
    pub fn start_download_status(&mut self)
        ensures
            *final(self) == (ImgConvert { status: BatchStatus::Pending, ..*old(self) }),
    {
        self.status = BatchStatus::Pending;
    }
}

/// A file's stem: its name with the directory prefix and everything from
/// the first dot on shed.
pub open spec fn spec_file_stem(input: Seq<char>) -> Seq<char> {
    let name = spec_strip_dir(input);
    name.subrange(0, find_from(name, '.', 0))
}

pub fn file_stem(input: &str) -> (r: String)
    ensures
        r@ == spec_file_stem(input@),
{
    let name = strip_dir(input);
    proof {
        lemma_find_from(name@, '.', 0);
    }
    let dot = find_char_from(name.as_str(), '.', 0);
    copy_range(name.as_str(), 0, dot)
}

/// The output file an input converts to: the input's stem with the chosen
/// format as its extension.
pub open spec fn spec_convert_output(input: Seq<char>, format_out: Seq<char>) -> Seq<char> {
    spec_file_stem(input) + seq!['.'] + format_out
}

pub fn convert_output(input: &str, format_out: &str) -> (r: String)
    ensures
        r@ == spec_convert_output(input@, format_out@),
{
    proof {
        reveal_strlit(".");
    }
    let mut r = file_stem(input);
    r.append(".");
    r.append(format_out);
    assert(r@ =~= spec_convert_output(input@, format_out@));
    r
}

/// The converter argument list for one image: the input, full quality, and
/// the output named after the input's stem in the chosen format.
pub fn download(input: &str, format_out: &str) -> (args: Vec<String>)
    ensures
        args.deep_view() == seq![
            "-i"@,
            input@,
            "-q:v"@,
            "100"@,
            spec_convert_output(input@, format_out@),
        ],
{
    let mut args: Vec<String> = Vec::new();
    args.push("-i".to_owned());
    args.push(input.to_owned());
    args.push("-q:v".to_owned());
    args.push("100".to_owned());
    args.push(convert_output(input, format_out));
    assert(args.deep_view() =~= seq![
        "-i"@,
        input@,
        "-q:v"@,
        "100"@,
        spec_convert_output(input@, format_out@),
    ]);
    args
}

/// A conversion's status comes from the converter's exit alone: there is no
/// run-log marker to go by.
pub fn convert_status(exit_ok: bool) -> (s: BatchStatus)
    ensures
        s == if exit_ok {
            BatchStatus::Done
        } else {
            BatchStatus::Fail
        },
{
    if exit_ok {
        BatchStatus::Done
    } else {
        BatchStatus::Fail
    }
}

} // verus!
