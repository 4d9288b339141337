//! What a location asks to be fetched, and what becomes of the reply.
use vstd::prelude::*;
use vstd::string::*;

verus! {

/// Something to fetch.
pub enum Request {
    /// Fetch the bytes of a WebAssembly guest from this location, to be kept in a file.
    DownloadWasm(String),
    /// Fetch the text of a page from this location.
    LoadPage(String),
}

/// The mathematical value of a [`Request`].
pub enum RequestView {
    DownloadWasm(Seq<char>),
    LoadPage(Seq<char>),
}

impl View for Request {
    type V = RequestView;

    open spec fn view(&self) -> RequestView {
        match *self {
            Request::DownloadWasm(url) => RequestView::DownloadWasm(url@),
            Request::LoadPage(url) => RequestView::LoadPage(url@),
        }
    }
}

/// A downloaded guest: the file to keep it in and what to write there.
pub struct Download {
    pub path: String,
    pub bytes: Vec<u8>,
}

/// Whether a location names a WebAssembly guest: whether it ends in `.wasm`.
pub open spec fn names_wasm(location: Seq<char>) -> bool {
    ".wasm"@.is_suffix_of(location)
}

/// What a location asks to be fetched.
pub open spec fn request_for(location: Seq<char>) -> RequestView {
    if names_wasm(location) {
        RequestView::DownloadWasm(location)
    } else {
        RequestView::LoadPage(location)
    }
}

/// The file in which the guest that was downloaded last is kept.
pub open spec fn guest_file() -> Seq<char> {
    "downloaded.wasm"@
}

/// The page to show for the reply to a page request.
pub open spec fn page_for(reply: Result<String, String>) -> Seq<char> {
    match reply {
        Ok(text) => text@,
        Err(_) => "Failed to load page"@,
    }
}

/// Whether `filename` ends in `.wasm`.
pub fn is_wasm(filename: String) -> (r: bool)
    ensures
        r == names_wasm(filename@),
{
    let name = filename.as_str();
    let n: usize = name.unicode_len();
    proof {
        reveal_strlit(".wasm");
    }
    if n >= 5 {
        let ending = name.substring_char(n - 5, n);
        ending.to_string() == ".wasm".to_string()
    } else {
        false
    }
}

/// What has to be fetched to visit `location`.
pub fn navigate(location: String) -> (request: Request)
    ensures
        request@ == request_for(location@),
{
    if is_wasm(location.clone()) {
        return Request::DownloadWasm(location);
    }
    Request::LoadPage(location)
}

/// What has to be fetched when the user asks for `url`.
pub fn go(url: String) -> (request: Request)
    ensures
        request@ == request_for(url@),
{
    navigate(url)
}

/// The file in which the guest that was downloaded last is kept.
pub fn guest_path() -> (path: String)
    ensures
        path@ == guest_file(),
{
    "downloaded.wasm".to_string()
}

/// Where to keep a downloaded guest. The file's path is also the page that stands for it.
///
/// There is nothing to keep after a failed download.
pub fn download_wasm(reply: Result<Vec<u8>, String>) -> (download: Download)
    requires
        reply is Ok,
    ensures
        download.path@ == guest_file(),
        download.bytes@ == reply->Ok_0@,
{
    Download { path: guest_path(), bytes: reply.unwrap() }
}

/// The page to show for the reply to a page request: its text, or a notice after a failure.
pub fn page_of_reply(reply: Result<String, String>) -> (page: String)
    ensures
        page@ == page_for(reply),
{
    match reply {
        Ok(text) => text,
        Err(_) => "Failed to load page".to_string(),
    }
}

} // verus!
