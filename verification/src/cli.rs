//! The options of the command line, as plain values.

use crate::fetch::{blob_from_response, blob_of_response, FetchError, RawMetadataBlob};
use crate::lookup::{resolve, resolve_spec, LookupError, LookupErrorModel};
use crate::metadata::decode_spec;
use crate::render::{render, render_spec};
use crate::wire::DecodeError;
use vstd::prelude::*;
use vstd::string::StringExecFns;

verus! {

/// The well-known development accounts that can sign.
#[derive(Clone, Copy, Debug, PartialEq, Eq, Structural)]
pub enum BuiltinAccounts {
    Alice,
    Bob,
    Charlie,
    Dave,
    Eve,
    Ferdie,
    One,
    Two,
}

/// The pallet whose subcommand was chosen.
#[derive(Clone, Copy, Debug, PartialEq, Eq, Structural)]
pub enum Cmd {
    Balances,
    Session,
    Sudo,
    System,
    XStaking,
}

/// The options of a run.
#[derive(Clone, Debug)]
pub struct App {
    /// The account that signs, if one was named.
    pub signer: Option<BuiltinAccounts>,
    /// The address of the node.
    pub url: String,
    /// The subcommand.
    pub command: Cmd,
}

/// The node address that is used where none is given.
pub open spec fn default_node() -> Seq<char> {
    "ws://127.0.0.1:9944"@
}

impl App {
    /// The options of a run, with the default node address where `url` is
    /// none.
    pub fn init(signer: Option<BuiltinAccounts>, url: Option<String>, command: Cmd) -> (app: Self)
        ensures
            app.signer == signer,
            app.command == command,
            app.url@ == match url {
                Some(given) => given@,
                None => default_node(),
            },
    {
        let url = match url {
            Some(given) => given,
            None => String::from_str("ws://127.0.0.1:9944"),
        };
        App { signer, url, command }
    }

    /// The account that signs: the one that was named, or Alice.
    pub fn signer_or_default(&self) -> (account: BuiltinAccounts)
        ensures
            account == match self.signer {
                Some(named) => named,
                None => BuiltinAccounts::Alice,
            },
    {
        match self.signer {
            Some(named) => named,
            None => BuiltinAccounts::Alice,
        }
    }
}

/// The options of a metadata query.
#[derive(Clone, Debug)]
pub struct GetOpt {
    url: String,
    pallet: Option<String>,
}

/// The address of the node that is queried where none is given.
pub open spec fn default_metadata_node() -> Seq<char> {
    "http://localhost:8087"@
}

impl GetOpt {
    /// The address of the node, as a sequence of characters.
    pub closed spec fn url_spec(&self) -> Seq<char> {
        self.url@
    }

    /// The name of the pallet that is asked for, if one is.
    pub closed spec fn pallet_spec(&self) -> Option<Seq<char>> {
        match self.pallet {
            Some(name) => Some(name@),
            None => None,
        }
    }

    /// The options of a metadata query, with the default node address where
    /// `url` is none.
    pub fn new(url: Option<String>, pallet: Option<String>) -> (opt: Self)
        ensures
            opt.url_spec() == match url {
                Some(given) => given@,
                None => default_metadata_node(),
            },
            opt.pallet_spec() == match pallet {
                Some(name) => Some(name@),
                None => None,
            },
    {
        let url = match url {
            Some(given) => given,
            None => String::from_str("http://localhost:8087"),
        };
        GetOpt { url, pallet }
    }

    /// The address of the node to query.
    pub fn url(&self) -> (url: &String)
        ensures
            url@ == self.url_spec(),
    {
        &self.url
    }

    /// The name of the pallet to show; none shows all.
    pub fn pallet(&self) -> (pallet: &Option<String>)
        ensures
            match pallet {
                Some(name) => self.pallet_spec() == Some(name@),
                None => self.pallet_spec() is None,
            },
    {
        &self.pallet
    }
}

/// The metadata subcommand.
#[derive(Clone, Debug)]
pub enum Meta {
    /// Fetch the metadata of a node and show it.
    Get(GetOpt),
}

/// What to send to a node: a POST of `body`, which is JSON, to `url`.
#[derive(Clone, Debug, PartialEq, Eq)]
pub struct Request {
    pub url: String,
    pub body: String,
}

/// The call that asks a node for its metadata.
pub open spec fn metadata_call() -> Seq<char> {
    "{\"id\":1,\"jsonrpc\":\"2.0\",\"method\":\"state_getMetadata\"}"@
}

/// Why the metadata subcommand showed nothing.
#[derive(Clone, Debug, PartialEq, Eq)]
pub enum MetaError {
    /// The node's answer held no metadata bytes.
    Fetch(FetchError),
    /// The bytes are not metadata of a supported version.
    Decode(DecodeError),
    /// The metadata does not hold what was asked for.
    Lookup(LookupError),
}

/// The mathematical model of a [`MetaError`].
pub enum MetaErrorModel {
    Fetch(FetchError),
    Decode(DecodeError),
    Lookup(LookupErrorModel),
}

impl View for MetaError {
    type V = MetaErrorModel;

    open spec fn view(&self) -> MetaErrorModel {
        match self {
            MetaError::Fetch(e) => MetaErrorModel::Fetch(*e),
            MetaError::Decode(e) => MetaErrorModel::Decode(*e),
            MetaError::Lookup(e) => MetaErrorModel::Lookup(e@),
        }
    }
}

/// What an error says to the user.
pub open spec fn message_spec(e: MetaErrorModel) -> Seq<char> {
    match e {
        MetaErrorModel::Fetch(FetchError::Transport) => {
            "error fetching metadata from the substrate node"@
        },
        MetaErrorModel::Fetch(FetchError::MalformedEnvelope) => "metadata response should be JSON"@,
        MetaErrorModel::Fetch(FetchError::MissingResult) => {
            "metadata result field should be a string"@
        },
        MetaErrorModel::Fetch(FetchError::InvalidHex) => {
            "metadata result field should be hexadecimal"@
        },
        MetaErrorModel::Decode(DecodeError::BadMagic) => {
            "metadata should start with the magic number"@
        },
        MetaErrorModel::Decode(DecodeError::Truncated) => "metadata ends before it is complete"@,
        MetaErrorModel::Decode(DecodeError::UnsupportedVersion) => "Unsupported metadata version"@,
        MetaErrorModel::Decode(DecodeError::Malformed) => {
            "metadata does not match its version's layout"@
        },
        MetaErrorModel::Lookup(LookupErrorModel::NotFound(_)) => "pallet not found in metadata"@,
        MetaErrorModel::Lookup(LookupErrorModel::ComponentsNotDecoded) => {
            "Metadata should be Decoded"@
        },
        MetaErrorModel::Lookup(LookupErrorModel::UnsupportedVersion) => {
            "Unsupported metadata version"@
        },
    }
}

impl MetaError {
    /// What the error says to the user.
    pub fn message(&self) -> (text: String)
        ensures
            text@ == message_spec(self@),
    {
        let text = match self {
            MetaError::Fetch(FetchError::Transport) => {
                "error fetching metadata from the substrate node"
            },
            MetaError::Fetch(FetchError::MalformedEnvelope) => "metadata response should be JSON",
            MetaError::Fetch(FetchError::MissingResult) => {
                "metadata result field should be a string"
            },
            MetaError::Fetch(FetchError::InvalidHex) => {
                "metadata result field should be hexadecimal"
            },
            MetaError::Decode(DecodeError::BadMagic) => {
                "metadata should start with the magic number"
            },
            MetaError::Decode(DecodeError::Truncated) => "metadata ends before it is complete",
            MetaError::Decode(DecodeError::UnsupportedVersion) => "Unsupported metadata version",
            MetaError::Decode(DecodeError::Malformed) => {
                "metadata does not match its version's layout"
            },
            MetaError::Lookup(LookupError::NotFound(_)) => "pallet not found in metadata",
            MetaError::Lookup(LookupError::ComponentsNotDecoded) => "Metadata should be Decoded",
            MetaError::Lookup(LookupError::UnsupportedVersion) => "Unsupported metadata version",
        };
        String::from_str(text)
    }
}

/// What is shown of the metadata bytes `bytes`: all of the metadata, or the
/// component named `pallet`.
pub open spec fn show_spec(bytes: Seq<u8>, pallet: Option<Seq<char>>) -> Result<
    Seq<char>,
    MetaErrorModel,
> {
    match decode_spec(bytes) {
        Err(e) => Err(MetaErrorModel::Decode(e)),
        Ok(m) => match resolve_spec(m, pallet) {
            Err(e) => Err(MetaErrorModel::Lookup(e)),
            Ok(found) => Ok(render_spec(found)),
        },
    }
}

/// What is shown for the text `answer` of a node: where the answer holds no
/// metadata bytes, the error of the fetch stage; else what is shown of the
/// bytes.
pub open spec fn respond_spec(answer: Seq<char>, pallet: Option<Seq<char>>) -> Result<
    Seq<char>,
    MetaErrorModel,
> {
    match blob_of_response(answer) {
        Err(e) => Err(MetaErrorModel::Fetch(e)),
        Ok(bytes) => show_spec(bytes, pallet),
    }
}

/// `r` is the text `expected`, or the error that `expected` is.
pub open spec fn showed(
    r: Result<String, MetaError>,
    expected: Result<Seq<char>, MetaErrorModel>,
) -> bool {
    match expected {
        Ok(text) => r matches Ok(got) && got@ == text,
        Err(e) => r matches Err(got) && got@ == e,
    }
}

impl Meta {
    /// The options of the subcommand.
    pub open spec fn options(&self) -> GetOpt {
        match self {
            Meta::Get(opt) => *opt,
        }
    }

    /// What to send: the metadata call, to the node of the options.
    pub fn request(&self) -> (req: Request)
        ensures
            req.url@ == self.options().url_spec(),
            req.body@ == metadata_call(),
    {
        match self {
            Meta::Get(opt) => Request {
                url: opt.url().clone(),
                body: String::from_str(
                    "{\"id\":1,\"jsonrpc\":\"2.0\",\"method\":\"state_getMetadata\"}",
                ),
            },
        }
    }

    /// What to print for the metadata bytes that the node sent: all of the
    /// metadata where the options name no pallet, else the pallet of that
    /// name. The first of decoding and lookup that fails gives the error.
    pub fn show(&self, blob: RawMetadataBlob) -> (r: Result<String, MetaError>)
        ensures
            showed(r, show_spec(blob.bytes@, self.options().pallet_spec())),
    {
        let pallet = match self {
            Meta::Get(opt) => match opt.pallet() {
                Some(name) => Some(name.clone()),
                None => None,
            },
        };
        match blob.decode() {
            Err(e) => Err(MetaError::Decode(e)),
            Ok(metadata) => match resolve(metadata, pallet) {
                Err(e) => Err(MetaError::Lookup(e)),
                Ok(found) => Ok(render(found)),
            },
        }
    }

    /// What to print for the text that the node answered: where the answer
    /// holds metadata bytes, what [`Meta::show`] gives for them; else the
    /// error of the fetch stage, unchanged, and nothing is shown.
    pub fn respond(&self, answer: &str) -> (r: Result<String, MetaError>)
        ensures
            showed(r, respond_spec(answer@, self.options().pallet_spec())),
    {
        match blob_from_response(answer) {
            Err(e) => Err(MetaError::Fetch(e)),
            Ok(blob) => self.show(blob),
        }
    }
}

} // verus!
