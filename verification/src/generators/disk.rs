//! A generator that reads metadata documents from a directory and keeps them.
//!
//! The documents of a directory are `contract.json` for the collection and,
//! for each token, a file named by the decimal form of the token id and
//! `.json`: `0.json`, `384510.json`. A document is read when it is first asked
//! for and then kept for as long as the generator lives; a document that
//! changes on disk is not read again.
//!
//! [`LocalJson`] holds what was read and decides what is to be done; it does
//! not touch the filesystem. Its user asks [`LocalJson::metadata_for`], reads
//! the file where that says so, and hands what the read came to, as a
//! [`FileRead`], to [`LocalJson::load_metadata`]. The collection's metadata
//! goes the same way through [`LocalJson::contract_metadata`] and
//! [`LocalJson::load_contract_metadata`].

use crate::generators::cache::TokenMap;
use crate::open_sea::{ContractMetadata, ContractMetadataView};
use crate::token_id::{
    decimal_digits, lemma_decimal_digits_are_digits, lemma_decimal_digits_injective,
    lemma_token_id_bound, lemma_token_id_by_value, pow2_256, TokenId,
};
use crate::{NftMetadata, NftMetadataView};
use std::path::PathBuf;
use vstd::prelude::*;
use vstd::string::StringExecFns;

verus! {

/// A path of the filesystem. The generator carries the path of its directory
/// and never looks into it.
#[verifier::external_type_specification]
#[verifier::external_body]
pub struct ExPathBuf(PathBuf);

/// The kinds of failure of a read that the generator tells apart.
#[derive(Clone, Copy, Debug, PartialEq, Eq, Structural)]
pub enum IoFailureKind {
    /// There is no such file.
    NotFound,
    /// Any other failure.
    Other,
}

/// A read that failed.
#[derive(Debug)]
pub struct IoFailure {
    /// The kind of the failure.
    pub kind: IoFailureKind,
    /// What the system said of it.
    pub message: String,
}

/// A document that could not be parsed.
#[derive(Debug)]
pub struct ParseFailure {
    /// What the parser said of it.
    pub message: String,
}

/// What reading a document from a file came to.
#[derive(Debug)]
pub enum FileRead<T> {
    /// The file could not be read.
    Unreadable(IoFailure),
    /// The file was read and does not hold a document.
    Malformed(ParseFailure),
    /// The file was read and parsed: it holds this document.
    Parsed(T),
}

/// Why a lookup failed.
#[derive(Debug)]
pub enum LocalJsonError {
    /// The file does not hold a document.
    Serde(ParseFailure),
    /// The file could not be read.
    Filesystem(IoFailure),
}

impl LocalJsonError {
    /// The message of the failure.
    pub open spec fn message(self) -> Seq<char> {
        match self {
            LocalJsonError::Serde(failure) => failure.message@,
            LocalJsonError::Filesystem(failure) => failure.message@,
        }
    }

    /// The message of the failure.
    pub fn to_string(&self) -> (r: String)
        ensures
            r@ == self.message(),
    {
        match self {
            LocalJsonError::Serde(failure) => failure.message.clone(),
            LocalJsonError::Filesystem(failure) => failure.message.clone(),
        }
    }
}

/// The failure to make a generator for a path at which something else than a
/// directory stands.
#[derive(Clone, Copy, Debug, PartialEq, Eq, Structural)]
pub struct NotADirectory;

impl NotADirectory {
    /// The message of the failure.
    pub fn to_string(&self) -> (r: String)
        ensures
            r@ == "location exists and is not a directory"@,
    {
        "location exists and is not a directory".to_owned()
    }
}

/// What is to be done for a document that was asked for.
#[derive(Debug)]
pub enum Lookup<T> {
    /// The document is kept: here it is.
    Cached(T),
    /// The document is not kept: read the file of this name in the
    /// generator's directory.
    ReadFile(String),
}

/// What a [`Lookup`] holds.
pub enum LookupView<V> {
    /// The document is kept.
    Cached(V),
    /// The document is not kept: the file of this name is to be read.
    ReadFile(Seq<char>),
}

impl<T: View> View for Lookup<T> {
    type V = LookupView<T::V>;

    open spec fn view(&self) -> LookupView<T::V> {
        match *self {
            Lookup::Cached(document) => LookupView::Cached(document@),
            Lookup::ReadFile(name) => LookupView::ReadFile(name@),
        }
    }
}

/// What the outcome of reading a document is to the one who asked for it. A
/// file that is not there is no failure: there is no document. A file that
/// is there and does not hold a document is a failure, and so is a file that
/// could not be read.
pub open spec fn load_json_outcome<T>(read: FileRead<T>) -> Result<Option<T>, LocalJsonError> {
    match read {
        FileRead::Parsed(document) => Ok(Some(document)),
        FileRead::Malformed(failure) => Err(LocalJsonError::Serde(failure)),
        FileRead::Unreadable(failure) => if failure.kind == IoFailureKind::NotFound {
            Ok(None)
        } else {
            Err(LocalJsonError::Filesystem(failure))
        },
    }
}

/// The name of the file that holds the document of token `id`.
pub open spec fn token_file_name(id: nat) -> Seq<char> {
    decimal_digits(id) + ".json"@
}

/// The name of the file that holds the document of the collection.
pub open spec fn contract_file_name() -> Seq<char> {
    "contract.json"@
}

/// What a lookup of token `id` says, given the documents that are kept.
pub open spec fn token_lookup(tokens: Map<nat, NftMetadataView>, id: nat) -> LookupView<
    NftMetadataView,
> {
    if tokens.contains_key(id) {
        LookupView::Cached(tokens[id])
    } else {
        LookupView::ReadFile(token_file_name(id))
    }
}

/// What a lookup of the collection's metadata says, given the document that
/// is kept, if any.
pub open spec fn contract_lookup(contract: Option<ContractMetadataView>) -> LookupView<
    ContractMetadataView,
> {
    match contract {
        Some(document) => LookupView::Cached(document),
        None => LookupView::ReadFile(contract_file_name()),
    }
}

/// The tokens' documents that are kept after the read of the document of
/// token `id` came to `read`: a document that was read is kept from then on,
/// in place of one that was kept for the token before.
pub open spec fn tokens_after(
    tokens: Map<nat, NftMetadataView>,
    id: nat,
    read: FileRead<NftMetadata>,
) -> Map<nat, NftMetadataView> {
    match load_json_outcome(read) {
        Ok(Some(document)) => tokens.insert(id, document@),
        _ => tokens,
    }
}

/// What the outcome of reading the collection's document is to the one who
/// asked for it: every failure counts as no document.
pub open spec fn load_contract_outcome(read: FileRead<ContractMetadata>) -> Option<
    ContractMetadata,
> {
    match load_json_outcome(read) {
        Ok(document) => document,
        Err(_) => None,
    }
}

/// The collection's document that is kept after the read of it came to
/// `read`.
pub open spec fn contract_after(
    contract: Option<ContractMetadataView>,
    read: FileRead<ContractMetadata>,
) -> Option<ContractMetadataView> {
    match load_contract_outcome(read) {
        Some(document) => Some(document@),
        None => contract,
    }
}

/// A generator of the metadata that JSON documents in a directory of the
/// local filesystem hold.
#[derive(Debug)]
pub struct LocalJson {
    location: PathBuf,
    cache: TokenMap<NftMetadata>,
    contract_cache: Option<ContractMetadata>,
}

impl LocalJson {
    /// The directory of the documents.
    pub closed spec fn directory(&self) -> PathBuf {
        self.location
    }

    /// The tokens' documents that are kept, by the number of the token id.
    pub closed spec fn tokens(&self) -> Map<nat, NftMetadataView> {
        self.cache@.map_values(|document: NftMetadata| document@)
    }

    /// The collection's document, if it is kept.
    pub closed spec fn contract(&self) -> Option<ContractMetadataView> {
        match self.contract_cache {
            Some(document) => Some(document@),
            None => None,
        }
    }

    /// A generator for the documents in the directory `location`, with no
    /// document kept yet. `exists` says whether anything stands at that path,
    /// `is_dir` whether a directory does. Where something else than a
    /// directory stands there, there is no generator.
    pub fn new(location: PathBuf, exists: bool, is_dir: bool) -> (r: Result<
        LocalJson,
        NotADirectory,
    >)
        ensures
            r is Err <==> exists && !is_dir,
            r matches Ok(generator) ==> {
                &&& generator.directory() == location
                &&& generator.tokens() == Map::<nat, NftMetadataView>::empty()
                &&& generator.contract() is None
            },
    {
        if exists && !is_dir {
            return Err(NotADirectory);
        }
        let generator = LocalJson { location, cache: TokenMap::new(), contract_cache: None };
        assert(generator.tokens() =~= Map::<nat, NftMetadataView>::empty());
        Ok(generator)
    }

    /// The directory of the documents.
    pub fn location(&self) -> (r: &PathBuf)
        ensures
            *r == self.directory(),
    {
        &self.location
    }

    /// The name of the file that holds the document of a token.
    pub fn token_file(token_id: TokenId) -> (r: String)
        ensures
            r@ == token_file_name(token_id@),
    {
        let mut name = token_id.to_string();
        name.append(".json");
        name
    }

    /// What reading a document came to, for the one who asked for it: the
    /// document, no document, or a failure.
    pub fn load_json<T>(read: FileRead<T>) -> (r: Result<Option<T>, LocalJsonError>)
        ensures
            r == load_json_outcome(read),
    {
        match read {
            FileRead::Parsed(document) => Ok(Some(document)),
            FileRead::Malformed(failure) => Err(LocalJsonError::Serde(failure)),
            FileRead::Unreadable(failure) => {
                if failure.kind == IoFailureKind::NotFound {
                    Ok(None)
                } else {
                    Err(LocalJsonError::Filesystem(failure))
                }
            },
        }
    }

    /// Looks for the document of a token among those that are kept. Where it
    /// is not kept, the file to read is named.
    pub fn metadata_for(&self, token_id: TokenId) -> (r: Lookup<NftMetadata>)
        ensures
            r@ == token_lookup(self.tokens(), token_id@),
    {
        match self.cache.get(&token_id) {
            Some(document) => Lookup::Cached(document.clone()),
            None => Lookup::ReadFile(LocalJson::token_file(token_id)),
        }
    }

    /// Takes in what the read of a token's document came to. A document is
    /// kept from now on and returned; no document and a failure are handed on
    /// and leave what is kept as it was.
    pub fn load_metadata(&mut self, token_id: TokenId, read: FileRead<NftMetadata>) -> (r: Result<
        Option<NftMetadata>,
        LocalJsonError,
    >)
        ensures
            r == load_json_outcome(read),
            final(self).tokens() == tokens_after(old(self).tokens(), token_id@, read),
            final(self).contract() == old(self).contract(),
            final(self).directory() == old(self).directory(),
    {
        match LocalJson::load_json(read) {
            Ok(Some(document)) => {
                self.cache.insert(token_id, document.clone());
                assert(self.tokens() =~= old(self).tokens().insert(token_id@, document@));
                Ok(Some(document))
            },
            Ok(None) => Ok(None),
            Err(failure) => Err(failure),
        }
    }

    /// Looks for the collection's document. Where it is not kept, the file to
    /// read is named.
    pub fn contract_metadata(&self) -> (r: Lookup<ContractMetadata>)
        ensures
            r@ == contract_lookup(self.contract()),
    {
        match &self.contract_cache {
            Some(document) => Lookup::Cached(document.clone()),
            None => Lookup::ReadFile("contract.json".to_owned()),
        }
    }

    /// Takes in what the read of the collection's document came to. A
    /// document is kept from now on and returned. Everything else, a failure
    /// too, counts as no document and leaves what is kept as it was.
    pub fn load_contract_metadata(&mut self, read: FileRead<ContractMetadata>) -> (r: Option<
        ContractMetadata,
    >)
        ensures
            r == load_contract_outcome(read),
            final(self).contract() == contract_after(old(self).contract(), read),
            final(self).tokens() == old(self).tokens(),
            final(self).directory() == old(self).directory(),
    {
        match LocalJson::load_json(read) {
            Ok(Some(document)) => {
                self.contract_cache = Some(document.clone());
                Some(document)
            },
            _ => None,
        }
    }
}

/// What one who asks for a token's metadata gets to see of an outcome: the
/// document by its view.
pub open spec fn seen<T: View>(outcome: Result<Option<T>, LocalJsonError>) -> Result<
    Option<T::V>,
    LocalJsonError,
> {
    match outcome {
        Ok(Some(document)) => Ok(Some(document@)),
        Ok(None) => Ok(None),
        Err(failure) => Err(failure),
    }
}

/// One request for the metadata of token `id`, served as this module asks:
/// the document is looked up among those that are kept, and only where it is
/// not kept the file is read, with the outcome `disk`. The result is what is
/// kept afterwards, and what the one who asked gets.
pub open spec fn serve_token(
    tokens: Map<nat, NftMetadataView>,
    id: nat,
    disk: FileRead<NftMetadata>,
) -> (Map<nat, NftMetadataView>, Result<Option<NftMetadataView>, LocalJsonError>) {
    match token_lookup(tokens, id) {
        LookupView::Cached(document) => (tokens, Ok(Some(document))),
        LookupView::ReadFile(_) => (tokens_after(tokens, id, disk), seen(load_json_outcome(disk))),
    }
}

/// What is kept after a run of requests, each a token id and what reading
/// its file would come to at that time.
pub open spec fn serve_tokens(
    tokens: Map<nat, NftMetadataView>,
    requests: Seq<(nat, FileRead<NftMetadata>)>,
) -> Map<nat, NftMetadataView>
    decreases requests.len(),
{
    if requests.len() == 0 {
        tokens
    } else {
        serve_token(
            serve_tokens(tokens, requests.drop_last()),
            requests.last().0,
            requests.last().1,
        ).0
    }
}

/// One request for the metadata of the collection, served as this module
/// asks.
pub open spec fn serve_contract(
    contract: Option<ContractMetadataView>,
    disk: FileRead<ContractMetadata>,
) -> (Option<ContractMetadataView>, Option<ContractMetadataView>) {
    match contract_lookup(contract) {
        LookupView::Cached(document) => (contract, Some(document)),
        LookupView::ReadFile(_) => (
            contract_after(contract, disk),
            match load_contract_outcome(disk) {
                Some(document) => Some(document@),
                None => None,
            },
        ),
    }
}

/// A token whose document is neither kept nor on disk is not found: that is
/// no failure, and nothing is kept for it.
pub proof fn lemma_missing_token_is_not_found(
    tokens: Map<nat, NftMetadataView>,
    id: nat,
    disk: FileRead<NftMetadata>,
)
    requires
        !tokens.contains_key(id),
        disk matches FileRead::Unreadable(failure) && failure.kind == IoFailureKind::NotFound,
    ensures
        serve_token(tokens, id, disk) == (tokens, Ok::<Option<NftMetadataView>, LocalJsonError>(None)),
{
}

/// A file that is there and does not hold a document is a failure that
/// carries what the parser said, and nothing is kept for it.
pub proof fn lemma_malformed_document_is_a_failure(
    tokens: Map<nat, NftMetadataView>,
    id: nat,
    failure: ParseFailure,
)
    ensures
        load_json_outcome::<NftMetadata>(FileRead::Malformed(failure)) == Err::<
            Option<NftMetadata>,
            LocalJsonError,
        >(LocalJsonError::Serde(failure)),
        tokens_after(tokens, id, FileRead::Malformed(failure)) == tokens,
{
}

/// A request for a token's metadata fails exactly when the document is not
/// kept and either its file does not hold a document or the read failed in
/// another way than by finding no file.
pub proof fn lemma_lookup_fails_exactly_when(
    tokens: Map<nat, NftMetadataView>,
    id: nat,
    disk: FileRead<NftMetadata>,
)
    ensures
        serve_token(tokens, id, disk).1 is Err <==> !tokens.contains_key(id) && (disk is Malformed
            || (disk matches FileRead::Unreadable(failure) && failure.kind
            != IoFailureKind::NotFound)),
        serve_token(tokens, id, disk).1 matches Ok(None) <==> !tokens.contains_key(id) && (
        disk matches FileRead::Unreadable(failure) && failure.kind == IoFailureKind::NotFound),
{
}

/// A token whose document was found is served that same document again,
/// whatever has become of its file, and what is kept stays as it is: the file
/// is not read a second time.
pub proof fn lemma_found_token_is_served_again(
    tokens: Map<nat, NftMetadataView>,
    id: nat,
    disk: FileRead<NftMetadata>,
    later_disk: FileRead<NftMetadata>,
)
    requires
        serve_token(tokens, id, disk).1 matches Ok(Some(_)),
    ensures
        token_lookup(serve_token(tokens, id, disk).0, id) is Cached,
        serve_token(serve_token(tokens, id, disk).0, id, later_disk) == serve_token(
            tokens,
            id,
            disk,
        ),
{
    let kept = serve_token(tokens, id, disk).0;
    if !tokens.contains_key(id) {
        assert(kept.contains_key(id));
    }
    assert(kept =~= serve_token(kept, id, later_disk).0);
}

/// What is kept for a token is the document that was read for it last;
/// what is kept for every other token is as it was.
pub proof fn lemma_kept_is_read_last(
    tokens: Map<nat, NftMetadataView>,
    id: nat,
    document: NftMetadata,
    other: nat,
)
    requires
        other != id,
    ensures
        tokens_after(tokens, id, FileRead::Parsed(document))[id] == document@,
        tokens_after(tokens, id, FileRead::Parsed(document)).contains_key(other)
            == tokens.contains_key(other),
        tokens_after(tokens, id, FileRead::Parsed(document))[other] == tokens[other],
{
}

/// A document that is kept stays kept, and stays the same, through every run
/// of requests that follows.
pub proof fn lemma_kept_token_stays(
    tokens: Map<nat, NftMetadataView>,
    id: nat,
    requests: Seq<(nat, FileRead<NftMetadata>)>,
)
    requires
        tokens.contains_key(id),
    ensures
        token_lookup(serve_tokens(tokens, requests), id) == LookupView::Cached(tokens[id]),
    decreases requests.len(),
{
    if requests.len() > 0 {
        lemma_kept_token_stays(tokens, id, requests.drop_last());
    }
}

/// While no document of the collection is kept or on disk, the collection's
/// metadata is not found, and nothing is kept. Once the file holds a
/// document, the next request is served it and it is kept.
pub proof fn lemma_contract_is_found_once_written(
    missing: FileRead<ContractMetadata>,
    document: ContractMetadata,
)
    requires
        missing matches FileRead::Unreadable(failure) && failure.kind == IoFailureKind::NotFound,
    ensures
        serve_contract(None, missing) == (
            None::<ContractMetadataView>,
            None::<ContractMetadataView>,
        ),
        serve_contract(None, FileRead::Parsed(document)) == (
            Some(document@),
            Some(document@),
        ),
{
}

/// A document of the collection that is kept is served again, whatever has
/// become of its file: the file is not read a second time.
pub proof fn lemma_kept_contract_is_served_again(
    document: ContractMetadataView,
    disk: FileRead<ContractMetadata>,
)
    ensures
        contract_lookup(Some(document)) is Cached,
        serve_contract(Some(document), disk) == (Some(document), Some(document)),
{
}

/// No failure of the read of the collection's document reaches the one who
/// asked: each counts as no document.
pub proof fn lemma_contract_failures_are_not_found(disk: FileRead<ContractMetadata>)
    requires
        !(disk is Parsed),
    ensures
        load_contract_outcome(disk) is None,
{
}

/// The decimal forms of two different numbers below two to the power 256,
/// each with `.json` behind it, are different names.
pub proof fn lemma_token_files_differ(a: nat, b: nat)
    requires
        a < pow2_256(),
        b < pow2_256(),
        a != b,
    ensures
        token_file_name(a) != token_file_name(b),
{
    let suffix = ".json"@;
    if token_file_name(a) == token_file_name(b) {
        let x = decimal_digits(a);
        let y = decimal_digits(b);
        assert((x + suffix).len() == (y + suffix).len());
        assert(x =~= (x + suffix).take(x.len() as int));
        assert(y =~= (y + suffix).take(y.len() as int));
        lemma_decimal_digits_injective(a, b);
    }
}

/// The files of two different token ids have different names.
pub proof fn lemma_tokens_have_their_own_files(a: TokenId, b: TokenId)
    requires
        a != b,
    ensures
        token_file_name(a@) != token_file_name(b@),
{
    lemma_token_id_bound(a);
    lemma_token_id_bound(b);
    if a@ == b@ {
        lemma_token_id_by_value(a, b);
    }
    lemma_token_files_differ(a@, b@);
}

/// The file of a token is never the file of the collection.
pub proof fn lemma_token_file_is_not_contract_file(id: nat)
    ensures
        token_file_name(id) != contract_file_name(),
{
    reveal_strlit("contract.json");
    lemma_decimal_digits_are_digits(id);
    assert(token_file_name(id)[0] == decimal_digits(id)[0]);
}

} // verus!
