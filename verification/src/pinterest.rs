//! A picture-board download job: picking the image out of a fetched page.
//!
//! The caller fetches the page body; the first image element's source URL
//! names the picture to download, and the text after its last slash names
//! the file to save.

use vstd::prelude::*;
use crate::correlate::spec_strip_dir;
use crate::correlate::strip_dir;

verus! {

pub struct PinterstDownload {
    pub link: String,
    pub out_directory: String,
    pub status_complete: bool,
    pub status_pending: bool,
    pub imgoranime: bool,
}

impl PinterstDownload {
    /// A fresh job; the caller supplies the default output directory.
    pub fn new(default_directory: String) -> (m: Self)
        ensures
            m.link@.len() == 0,
            m.out_directory@ == default_directory@,
            !m.status_complete,
            !m.status_pending,
            !m.imgoranime,
    {
        PinterstDownload {
            link: String::new(),
            out_directory: default_directory,
            status_complete: false,
            status_pending: false,
            imgoranime: false,
        }
    }

    /// Mark the job as not yet run.
    pub fn reset_download_status(&mut self)
        ensures
            *final(self) == (PinterstDownload {
                status_complete: false,
                status_pending: false,
                ..*old(self)
            }),
    {
        self.status_complete = false;
        self.status_pending = false;
    }

    /// Mark the job as running.
    pub fn start_download_status(&mut self)
        ensures
            *final(self) == (PinterstDownload { status_pending: true, ..*old(self) }),
    {
        self.status_pending = true;
    }
}

/// The `src` attribute of the first image element of an HTML page, if the
/// page has one; parsing is a function of the page text alone.
pub uninterp spec fn first_img_src_of(html: Seq<char>) -> Option<Seq<char>>;

/// Relies on scraper's Html::parse_document, select, and attr: the `src`
/// attribute of the page's first `img` element.
#[verifier::external_body]
fn first_img_src(html: &str) -> (r: Option<String>)
    ensures
        r.deep_view() == first_img_src_of(html@),
{
    let doc = scraper::Html::parse_document(html);
    let selector = scraper::Selector::parse("img").ok()?;
    let element = doc.select(&selector).next()?;
    Some(element.value().attr("src")?.to_owned())
}

/// Where a fetched page's first image lives and what to call the saved
/// file: the image's source URL, and its last path segment as file name.
pub fn pin_image_target(html: &str) -> (r: Option<(String, String)>)
    ensures
        r is Some <==> first_img_src_of(html@) is Some,
        r matches Some((u, name)) ==> u@ == first_img_src_of(html@)->Some_0 && name@
            == spec_strip_dir(first_img_src_of(html@)->Some_0),
{
    match first_img_src(html) {
        Some(src) => {
            let name = strip_dir(src.as_str());
            Some((src, name))
        },
        None => None,
    }
}

} // verus!
