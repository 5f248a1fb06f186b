//! A video conversion job: its settings and the converter invocation it
//! plans.

use vstd::prelude::*;
use crate::img_convert::spec_convert_output;
use crate::img_convert::convert_output;
use crate::report::BatchStatus;

verus! {

pub struct VideoConvert {
    pub out_directory: String,
    pub status: BatchStatus,
    pub format_in: String,
    pub format_out: String,
    pub input_file: String,
}

impl VideoConvert {
    /// A fresh job; the caller supplies the default output directory.
    pub fn new(default_directory: String) -> (m: Self)
        ensures
            m.out_directory@ == default_directory@,
            m.status == BatchStatus::Idle,
            m.format_in@.len() == 0,
            m.format_out@ == "None"@,
            m.input_file@.len() == 0,
    {
        VideoConvert {
            out_directory: default_directory,
            status: BatchStatus::Idle,
            format_in: String::new(),
            format_out: "None".to_owned(),
            input_file: String::new(),
        }
    }

    /// Mark the job as running.
    pub fn start_download_status(&mut self)
        ensures
            *final(self) == (VideoConvert { status: BatchStatus::Pending, ..*old(self) }),
    {
        self.status = BatchStatus::Pending;
    }
}

/// The converter argument list for one video: the input, and the output
/// named after the input's stem in the chosen format.
pub fn download(input: &str, format_out: &str) -> (args: Vec<String>)
    ensures
        args.deep_view() == seq!["-i"@, input@, spec_convert_output(input@, format_out@)],
{
    let mut args: Vec<String> = Vec::new();
    args.push("-i".to_owned());
    args.push(input.to_owned());
    args.push(convert_output(input, format_out));
    assert(args.deep_view() =~= seq!["-i"@, input@, spec_convert_output(input@, format_out@)]);
    args
}

} // verus!
