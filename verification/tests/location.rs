use browser::location::{
    download_wasm, go, guest_path, is_wasm, navigate, page_of_reply, Request,
};

fn described(request: Request) -> String {
    match request {
        Request::DownloadWasm(url) => format!("wasm {}", url),
        Request::LoadPage(url) => format!("page {}", url),
    }
}

#[test]
fn wasm_is_known_by_its_ending() {
    assert!(is_wasm("https://example.com/game.wasm".to_string()));
    assert!(is_wasm(".wasm".to_string()));
    assert!(!is_wasm("wasm".to_string()));
    assert!(!is_wasm("".to_string()));
    assert!(!is_wasm("game.WASM".to_string()));
    assert!(!is_wasm("game.wasm?v=1".to_string()));
    assert!(is_wasm("\u{e9}\u{1f600}.wasm".to_string()));
    assert!(!is_wasm("\u{1f600}wasm".to_string()));
}

#[test]
fn navigation_fetches_a_page_or_a_guest() {
    assert_eq!(described(navigate("a/b".to_string())), "page a/b");
    assert_eq!(described(navigate("a/b.wasm".to_string())), "wasm a/b.wasm");
    assert_eq!(described(go("a/b".to_string())), "page a/b");
    assert_eq!(described(go("a/b.wasm".to_string())), "wasm a/b.wasm");
}

#[test]
fn failed_page_is_replaced_by_a_notice() {
    assert_eq!(page_of_reply(Ok("# hi".to_string())), "# hi");
    assert_eq!(page_of_reply(Err("refused".to_string())), "Failed to load page");
}

#[test]
fn download_is_kept_in_the_file_that_is_run() {
    let download = download_wasm(Ok(vec![0, 97, 115, 109]));
    assert_eq!(download.path, "downloaded.wasm");
    assert_eq!(download.path, guest_path());
    assert_eq!(download.bytes, vec![0, 97, 115, 109]);
}
