use nft_server::generators::disk::{
    FileRead, IoFailure, IoFailureKind, LocalJson, LocalJsonError, Lookup, ParseFailure,
};
use nft_server::open_sea::{Address, ContractMetadata};
use nft_server::server::{
    complete, contract_handler, contract_response, dispatch, nft_handler, no_icon, plan,
    plan_token, return_200, return_404, route, token_response, unavailable, Body, Response, Route,
    Step, INTERNAL_SERVER_ERROR, NOT_FOUND, OK,
};
use nft_server::token_id::TokenId;
use nft_server::urls::Url;
use nft_server::{MetadataGenerator, NftImage, NftMetadata};
use std::cell::RefCell;
use std::collections::HashMap;
use std::path::PathBuf;
use std::str::FromStr;

fn toast() -> NftMetadata {
    NftMetadata {
        name: "Toast".to_string(),
        description: "d".to_string(),
        external_url: Url::parse("http://e/").unwrap(),
        image: NftImage::from_str("http://i/").unwrap(),
        attributes: vec![],
        background_color: None,
        animation_url: None,
        youtube_url: None,
    }
}

fn collection() -> ContractMetadata {
    ContractMetadata {
        name: "Toast".to_string(),
        description: "Toast".to_string(),
        image: NftImage::from_str("http://example.com/image.png").unwrap(),
        external_link: Url::parse("http://example.com/").unwrap(),
        seller_fee_basis_points: 300,
        fee_recipient: Address { bytes: [0; 20] },
    }
}

fn missing() -> IoFailure {
    IoFailure { kind: IoFailureKind::NotFound, message: "No such file or directory".to_string() }
}

/// What stands in one file of the directory.
#[derive(Clone)]
enum File {
    Token(NftMetadata),
    Contract(ContractMetadata),
    Garbage,
    Locked,
}

/// A generator over a directory that is held in memory: it drives a
/// `LocalJson` as a server would, and counts the reads.
struct Directory {
    files: RefCell<HashMap<String, File>>,
    state: RefCell<LocalJson>,
    reads: RefCell<usize>,
}

impl Directory {
    fn new() -> Directory {
        Directory {
            files: RefCell::new(HashMap::new()),
            state: RefCell::new(LocalJson::new(PathBuf::from("/data"), true, true).unwrap()),
            reads: RefCell::new(0),
        }
    }

    fn write(&self, name: &str, file: File) {
        self.files.borrow_mut().insert(name.to_string(), file);
    }

    fn remove(&self, name: &str) {
        self.files.borrow_mut().remove(name);
    }

    fn reads(&self) -> usize {
        *self.reads.borrow()
    }

    fn read(&self, name: &str) -> Option<File> {
        *self.reads.borrow_mut() += 1;
        self.files.borrow().get(name).cloned()
    }

    fn garbage() -> ParseFailure {
        ParseFailure { message: "expected value at line 1 column 1 of /data/5.json".to_string() }
    }

    fn locked() -> IoFailure {
        IoFailure { kind: IoFailureKind::Other, message: "Permission denied".to_string() }
    }
}

impl MetadataGenerator for Directory {
    type Error = LocalJsonError;

    fn metadata_for(&self, token_id: TokenId) -> Result<Option<NftMetadata>, LocalJsonError> {
        let lookup = self.state.borrow().metadata_for(token_id);
        match lookup {
            Lookup::Cached(document) => Ok(Some(document)),
            Lookup::ReadFile(name) => {
                let read = match self.read(&name) {
                    None => FileRead::Unreadable(missing()),
                    Some(File::Token(document)) => FileRead::Parsed(document),
                    Some(File::Locked) => FileRead::Unreadable(Directory::locked()),
                    Some(_) => FileRead::Malformed(Directory::garbage()),
                };
                self.state.borrow_mut().load_metadata(token_id, read)
            }
        }
    }

    fn contract_metadata(&self) -> Option<ContractMetadata> {
        let lookup = self.state.borrow().contract_metadata();
        match lookup {
            Lookup::Cached(document) => Some(document),
            Lookup::ReadFile(name) => {
                let read = match self.read(&name) {
                    None => FileRead::Unreadable(missing()),
                    Some(File::Contract(document)) => FileRead::Parsed(document),
                    Some(File::Locked) => FileRead::Unreadable(Directory::locked()),
                    Some(_) => FileRead::Malformed(Directory::garbage()),
                };
                self.state.borrow_mut().load_contract_metadata(read)
            }
        }
    }
}

fn headers(reply: &Response) -> Vec<(&'static str, &'static str)> {
    reply.headers.iter().map(|h| (h.name, h.value)).collect()
}

fn text(reply: &Response) -> Option<&'static str> {
    match &reply.body {
        Body::Text(text) => Some(*text),
        _ => None,
    }
}

const CACHED: (&str, &str) = ("Cache-Control", "max-age=300, must-revalidate");

#[test]
fn an_empty_directory_knows_no_token_until_the_document_is_written() {
    let data = Directory::new();
    let reply = dispatch(&data, "/0");
    assert_eq!(reply.status, 404);
    assert_eq!(text(&reply), Some("unknown token id"));
    assert_eq!(headers(&reply), vec![CACHED]);

    data.write("0.json", File::Token(toast()));
    let reply = dispatch(&data, "/0");
    assert_eq!(reply.status, 200);
    assert_eq!(headers(&reply), vec![CACHED]);
    match reply.body {
        Body::Token(document) => {
            assert_eq!(document.name, "Toast");
            assert_eq!(document.description, "d");
            assert_eq!(document.external_url.as_str(), "http://e/");
            assert!(matches!(&document.image, NftImage::Url { image } if image.as_str() == "http://i/"));
        }
        other => panic!("{:?}", other),
    }
}

#[test]
fn a_document_that_does_not_parse_is_a_fault_that_tells_nothing() {
    let data = Directory::new();
    data.write("5.json", File::Garbage);
    let reply = dispatch(&data, "/5");
    assert_eq!(reply.status, 500);
    assert_eq!(text(&reply), Some("service temporarily unavailable"));
    assert!(reply.headers.is_empty());
    let body = text(&reply).unwrap();
    assert!(!body.contains("/data"));
    assert!(!body.contains("5.json"));
    assert!(!body.contains("line"));
    assert!(!body.contains("column"));
}

#[test]
fn a_fixed_document_is_found_after_a_fault() {
    let data = Directory::new();
    data.write("5.json", File::Garbage);
    assert_eq!(dispatch(&data, "/5").status, 500);
    data.write("5.json", File::Token(toast()));
    assert_eq!(dispatch(&data, "/5").status, 200);
}

#[test]
fn a_file_that_cannot_be_read_is_a_fault() {
    let data = Directory::new();
    data.write("5.json", File::Locked);
    let reply = dispatch(&data, "/5");
    assert_eq!(reply.status, 500);
    assert_eq!(text(&reply), Some("service temporarily unavailable"));
}

#[test]
fn a_found_token_is_not_read_again() {
    let data = Directory::new();
    data.write("7.json", File::Token(toast()));
    assert_eq!(dispatch(&data, "/7").status, 200);
    assert_eq!(data.reads(), 1);
    data.remove("7.json");
    let again = dispatch(&data, "/7");
    assert_eq!(again.status, 200);
    assert!(matches!(&again.body, Body::Token(document) if document.name == "Toast"));
    assert_eq!(data.reads(), 1);
}

#[test]
fn a_missing_token_is_read_each_time() {
    let data = Directory::new();
    assert_eq!(dispatch(&data, "/7").status, 404);
    assert_eq!(dispatch(&data, "/7").status, 404);
    assert_eq!(data.reads(), 2);
}

#[test]
fn repeated_lookups_give_the_same_document() {
    let data = Directory::new();
    data.write("7.json", File::Token(toast()));
    let first = format!("{:?}", dispatch(&data, "/7"));
    let second = format!("{:?}", dispatch(&data, "/7"));
    let third = format!("{:?}", dispatch(&data, "/7"));
    assert_eq!(first, second);
    assert_eq!(second, third);
}

#[test]
fn the_collection_is_not_found_until_its_document_is_written() {
    let data = Directory::new();
    let reply = dispatch(&data, "/");
    assert_eq!(reply.status, 404);
    assert_eq!(text(&reply), Some("no contract metadata"));
    assert_eq!(headers(&reply), vec![CACHED]);

    data.write("contract.json", File::Contract(collection()));
    let reply = dispatch(&data, "/");
    assert_eq!(reply.status, 200);
    assert_eq!(headers(&reply), vec![CACHED]);
    assert!(matches!(&reply.body, Body::Contract(document) if document.seller_fee_basis_points == 300));
    let reads = data.reads();

    data.remove("contract.json");
    let reply = dispatch(&data, "/");
    assert_eq!(reply.status, 200);
    assert_eq!(data.reads(), reads);
}

#[test]
fn a_broken_collection_document_is_not_found() {
    let data = Directory::new();
    data.write("contract.json", File::Garbage);
    assert_eq!(dispatch(&data, "/").status, 404);
    data.write("contract.json", File::Locked);
    assert_eq!(dispatch(&data, "/").status, 404);
}

#[test]
fn a_token_id_that_is_no_number_is_answered_as_a_fault() {
    let data = Directory::new();
    for path in ["/abc", "/-1", "/0x10", "/1.5", "/%31"] {
        let reply = dispatch(&data, path);
        assert_eq!(reply.status, 500, "{}", path);
        assert_eq!(text(&reply), Some("service temporarily unavailable"));
        assert!(reply.headers.is_empty());
    }
    let too_large = format!("/{}", "9".repeat(80));
    assert_eq!(dispatch(&data, &too_large).status, 500);
    assert_eq!(data.reads(), 0);
}

#[test]
fn the_health_check_is_always_well() {
    let data = Directory::new();
    let reply = dispatch(&data, "/healthcheck");
    assert_eq!(reply.status, 200);
    assert!(matches!(reply.body, Body::Empty));
    assert!(reply.headers.is_empty());
    assert_eq!(data.reads(), 0);
}

#[test]
fn there_is_no_icon() {
    let data = Directory::new();
    let reply = dispatch(&data, "/favicon.ico");
    assert_eq!(reply.status, 404);
    assert!(matches!(reply.body, Body::Empty));
    assert!(reply.headers.is_empty());
    assert_eq!(data.reads(), 0);
}

#[test]
fn other_paths_are_unknown_routes() {
    let data = Directory::new();
    for path in ["", "/1/2", "/1/", "//", "//1", "1", "/healthcheck/", "/a/b/c"] {
        let reply = dispatch(&data, path);
        assert_eq!(reply.status, 404, "{:?}", path);
        assert_eq!(text(&reply), Some("unknown route"), "{:?}", path);
        assert!(reply.headers.is_empty());
    }
    assert_eq!(data.reads(), 0);
}

#[test]
fn paths_lead_to_their_routes() {
    assert!(matches!(route("/healthcheck"), Route::Healthcheck));
    assert!(matches!(route("/favicon.ico"), Route::Favicon));
    assert!(matches!(route("/"), Route::Contract));
    assert!(matches!(route("/0"), Route::Token("0")));
    assert!(matches!(route("/384510"), Route::Token("384510")));
    assert!(matches!(route("/toast"), Route::Token("toast")));
    assert!(matches!(route("/healthchecks"), Route::Token("healthchecks")));
    assert!(matches!(route("/\u{00e9}t\u{00e9}"), Route::Token("\u{00e9}t\u{00e9}")));
    assert!(matches!(route(""), Route::Unknown));
    assert!(matches!(route("0"), Route::Unknown));
    assert!(matches!(route("/0/"), Route::Unknown));
    assert!(matches!(route("/0/1"), Route::Unknown));
    assert!(matches!(route("//"), Route::Unknown));
}

#[test]
fn a_plan_names_the_token_to_look_for() {
    assert!(matches!(plan("/15888"), Step::FindToken(id) if id.limbs == [15888, 0, 0, 0]));
    assert!(matches!(plan("/"), Step::FindContract));
    assert!(matches!(plan("/healthcheck"), Step::Reply(reply) if reply.status == 200));
    assert!(matches!(plan("/favicon.ico"), Step::Reply(reply) if reply.status == 404));
    assert!(matches!(plan("/x"), Step::Reply(reply) if reply.status == 500));
    assert!(matches!(plan("/x/y"), Step::Reply(reply) if reply.status == 404));
    assert!(matches!(plan_token("12"), Step::FindToken(id) if id.limbs == [12, 0, 0, 0]));
    assert!(matches!(plan_token("012"), Step::FindToken(id) if id.limbs == [12, 0, 0, 0]));
    assert!(matches!(plan_token("twelve"), Step::Reply(reply) if reply.status == 500));
}

#[test]
fn an_empty_token_id_is_answered_as_a_fault() {
    assert!(matches!(plan_token(""), Step::Reply(reply) if reply.status == 500));
    let data = Directory::new();
    data.write("0.json", File::Token(toast()));
    let reply = nft_handler("", &data);
    assert_eq!(reply.status, 500);
    assert_eq!(text(&reply), Some("service temporarily unavailable"));
    assert_eq!(data.reads(), 0);
}

#[test]
fn a_step_is_completed_out_of_the_generator() {
    let data = Directory::new();
    data.write("3.json", File::Token(toast()));
    data.write("contract.json", File::Contract(collection()));
    let reply = complete(&data, Step::FindToken(TokenId { limbs: [3, 0, 0, 0] }));
    assert_eq!(reply.status, 200);
    let reply = complete(&data, Step::FindToken(TokenId { limbs: [4, 0, 0, 0] }));
    assert_eq!(reply.status, 404);
    let reply = complete(&data, Step::FindContract);
    assert_eq!(reply.status, 200);
    let reply = complete(&data, Step::Reply(return_200()));
    assert_eq!(reply.status, 200);
    assert!(matches!(reply.body, Body::Empty));
}

#[test]
fn the_handlers_answer_as_the_routes_do() {
    let data = Directory::new();
    data.write("3.json", File::Token(toast()));
    assert_eq!(nft_handler("3", &data).status, 200);
    assert_eq!(nft_handler("4", &data).status, 404);
    assert_eq!(nft_handler("three", &data).status, 500);
    assert_eq!(contract_handler(&data).status, 404);
    data.write("contract.json", File::Contract(collection()));
    assert_eq!(contract_handler(&data).status, 200);
}

#[test]
fn each_outcome_of_a_lookup_has_its_reply() {
    let found = token_response::<LocalJsonError>(Ok(Some(toast())));
    assert_eq!(found.status, OK);
    assert_eq!(headers(&found), vec![CACHED]);
    assert!(matches!(&found.body, Body::Token(document) if document.name == "Toast"));

    let unknown = token_response::<LocalJsonError>(Ok(None));
    assert_eq!(unknown.status, NOT_FOUND);
    assert_eq!(headers(&unknown), vec![CACHED]);
    assert_eq!(text(&unknown), Some("unknown token id"));

    let failure = LocalJsonError::Serde(Directory::garbage());
    let failed = token_response(Err::<Option<NftMetadata>, LocalJsonError>(failure));
    assert_eq!(failed.status, INTERNAL_SERVER_ERROR);
    assert!(failed.headers.is_empty());
    assert_eq!(text(&failed), Some("service temporarily unavailable"));

    let found = contract_response(Some(collection()));
    assert_eq!(found.status, 200);
    assert_eq!(headers(&found), vec![CACHED]);
    assert!(matches!(&found.body, Body::Contract(document) if document.name == "Toast"));

    let unknown = contract_response(None);
    assert_eq!(unknown.status, 404);
    assert_eq!(headers(&unknown), vec![CACHED]);
    assert_eq!(text(&unknown), Some("no contract metadata"));
}

#[test]
fn the_fixed_replies() {
    let reply = return_404();
    assert_eq!((reply.status, text(&reply), reply.headers.len()), (404, Some("unknown route"), 0));
    let reply = return_200();
    assert_eq!((reply.status, reply.headers.len()), (200, 0));
    assert!(matches!(reply.body, Body::Empty));
    let reply = no_icon();
    assert_eq!((reply.status, reply.headers.len()), (404, 0));
    assert!(matches!(reply.body, Body::Empty));
    let reply = unavailable();
    assert_eq!(
        (reply.status, text(&reply), reply.headers.len()),
        (500, Some("service temporarily unavailable"), 0)
    );
    assert_eq!((OK, NOT_FOUND, INTERNAL_SERVER_ERROR), (200, 404, 500));
}
