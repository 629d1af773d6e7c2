//! The bootstrap peers of each network, read from the network's
//! configuration document.

use std::collections::HashMap;
use tentacle_multiaddr::Multiaddr;
use vstd::prelude::*;

use crate::blockchain::Network;
use crate::error::RegistryError;
use crate::nesting::{nesting_within_limit, spec_text_nesting, NESTING_LIMIT};

verus! {

broadcast use vstd::std_specs::hash::group_hash_axioms;

/// A value of a TOML document, of `toml`.
#[verifier::external_type_specification]
#[verifier::external_body]
pub struct ExTomlValue(toml::Value);

/// A network address, of `tentacle_multiaddr`.
#[verifier::external_type_specification]
#[verifier::external_body]
pub struct ExMultiaddr(tentacle_multiaddr::Multiaddr);

/// The document that `toml` reads from a text, or its error.
pub uninterp spec fn toml_document(text: Seq<char>) -> Result<toml::Value, toml::de::Error>;

/// The value under `key` in a table, if `value` is a table that has it.
pub uninterp spec fn toml_member(value: toml::Value, key: Seq<char>) -> Option<toml::Value>;

/// The items of an array, if `value` is an array.
pub uninterp spec fn toml_array(value: toml::Value) -> Option<Seq<toml::Value>>;

/// The characters of a string, if `value` is a string.
pub uninterp spec fn toml_string(value: toml::Value) -> Option<Seq<char>>;

/// The address that a text is read as, if it is one.
pub uninterp spec fn multiaddr_of(text: Seq<char>) -> Option<Multiaddr>;

/// `str::parse` to a `toml::Value`: the document of the text, or the
/// error with which `toml` refuses it. The parser calls itself once for
/// each array or inline table inside another and once for each part of a
/// dotted key, and the document it builds is as deep as its headers, keys,
/// arrays and inline tables are nested. A header adds at most two levels
/// for each of its parts, a statement one for each part of its keys and
/// for each array or inline table that is open, so no document is deeper
/// than three times the nesting of its text and a few more. The stack has
/// room for that within the limit.
#[verifier::external_body]
fn parse_document(text: &str) -> (r: Result<toml::Value, toml::de::Error>)
    requires
        spec_text_nesting(text@) <= NESTING_LIMIT,
    ensures
        r == toml_document(text@),
{
    text.parse::<toml::Value>()
}

/// `Value::get` with a string key: the value under the key, or nothing
/// where `value` is no table or has no such key.
#[verifier::external_body]
fn document_member<'a>(value: &'a toml::Value, key: &str) -> (r: Option<&'a toml::Value>)
    ensures
        match r {
            Some(member) => toml_member(*value, key@) == Some(*member),
            None => toml_member(*value, key@) is None,
        },
{
    value.get(key)
}

/// `Value::as_array`: the items, or nothing where `value` is no array.
#[verifier::external_body]
fn document_array<'a>(value: &'a toml::Value) -> (r: Option<&'a Vec<toml::Value>>)
    ensures
        match r {
            Some(items) => toml_array(*value) == Some(items@),
            None => toml_array(*value) is None,
        },
{
    value.as_array()
}

/// `Value::as_str`: the string, or nothing where `value` is no string.
#[verifier::external_body]
fn document_string<'a>(value: &'a toml::Value) -> (r: Option<&'a str>)
    ensures
        match r {
            Some(text) => toml_string(*value) == Some(text@),
            None => toml_string(*value) is None,
        },
{
    value.as_str()
}

/// `str::parse` to a `Multiaddr`: the address, or nothing where the text
/// is none.
#[verifier::external_body]
fn parse_multiaddr(text: &str) -> (r: Option<Multiaddr>)
    ensures
        r == multiaddr_of(text@),
{
    text.parse::<Multiaddr>().ok()
}

/// Why the bootstrap peers of a network cannot be had.
pub enum BootnodesFailure {
    /// The text is no TOML document.
    Toml(toml::de::Error),
    /// The document lacks the list of peers, with the message that says how.
    Unreachable(Seq<char>),
    /// A peer is no address.
    Unknown(Seq<char>),
}

/// Whether `error` reports exactly `failure`.
pub open spec fn reports_failure(error: RegistryError, failure: BootnodesFailure) -> bool {
    match failure {
        BootnodesFailure::Toml(inner) => error == RegistryError::Toml(inner),
        BootnodesFailure::Unreachable(text) => error matches RegistryError::Unreachable(message)
            && message@ == text,
        BootnodesFailure::Unknown(text) => error matches RegistryError::Unknown(kind, value)
            && kind@ == "bootnode"@ && value@ == text,
    }
}

/// The characters of each string.
pub open spec fn strings_view(strings: Seq<String>) -> Seq<Seq<char>> {
    Seq::new(strings.len(), |i: int| strings[i]@)
}

/// The lower-case name of a network, under which its configuration lies.
pub open spec fn spec_chain_name(network: Network) -> Seq<char> {
    match network {
        Network::Mainnet => "mainnet"@,
        Network::Testnet => "testnet"@,
        Network::Staging => "staging"@,
        Network::Develop => "develop"@,
    }
}

/// The strings of the first `n` items, or nothing if one of them is no
/// string.
pub open spec fn spec_item_strings(items: Seq<toml::Value>, n: nat) -> Option<Seq<Seq<char>>>
    decreases n,
{
    if n == 0 {
        Some(Seq::empty())
    } else {
        match spec_item_strings(items, (n - 1) as nat) {
            None => None,
            Some(strings) => match toml_string(items[n - 1]) {
                None => None,
                Some(text) => Some(strings.push(text)),
            },
        }
    }
}

/// The strings under `network.bootnodes` in a document, or the message
/// that says what is missing for the chain.
pub open spec fn spec_raw_bootnodes(document: toml::Value, chain: Seq<char>) -> Result<
    Seq<Seq<char>>,
    Seq<char>,
> {
    match toml_member(document, "network"@) {
        None => Err("`network` for chain "@ + chain + " was not found"@),
        Some(network) => match toml_member(network, "bootnodes"@) {
            None => Err("`network::bootnodes` for chain "@ + chain + " was not found"@),
            Some(bootnodes) => match toml_array(bootnodes) {
                None => Err("`network::bootnodes` for chain "@ + chain + " was not array"@),
                Some(items) => match spec_item_strings(items, items.len()) {
                    None => Err(
                        "at least one item in `network::bootnodes` for chain "@ + chain
                            + " was not string"@,
                    ),
                    Some(strings) => Ok(strings),
                },
            },
        },
    }
}

/// The addresses of the first `n` texts, or the first text among them
/// that is no address.
pub open spec fn spec_multiaddrs(texts: Seq<Seq<char>>, n: nat) -> Result<
    Seq<Multiaddr>,
    Seq<char>,
>
    decreases n,
{
    if n == 0 {
        Ok(Seq::empty())
    } else {
        match spec_multiaddrs(texts, (n - 1) as nat) {
            Err(text) => Err(text),
            Ok(addrs) => match multiaddr_of(texts[n - 1]) {
                None => Err(texts[n - 1]),
                Some(addr) => Ok(addrs.push(addr)),
            },
        }
    }
}

/// The bootstrap peers that the configuration document of a chain gives,
/// once read, or why there are none.
pub open spec fn spec_document_bootnodes(document: toml::Value, chain: Seq<char>) -> Result<
    Seq<Multiaddr>,
    BootnodesFailure,
> {
    match spec_raw_bootnodes(document, chain) {
        Err(message) => Err(BootnodesFailure::Unreachable(message)),
        Ok(texts) => match spec_multiaddrs(texts, texts.len()) {
            Err(text) => Err(BootnodesFailure::Unknown(text)),
            Ok(addrs) => Ok(addrs),
        },
    }
}

/// The message for a text that is nested more deeply than may be read.
pub open spec fn spec_nested_too_deeply(chain: Seq<char>) -> Seq<char> {
    "document for chain "@ + chain + " was nested too deeply"@
}

/// The bootstrap peers that the text of a chain's configuration gives, or
/// why there are none. A text that is nested more deeply than the limit
/// is not read at all.
pub open spec fn spec_bootnodes(text: Seq<char>, chain: Seq<char>) -> Result<
    Seq<Multiaddr>,
    BootnodesFailure,
> {
    if spec_text_nesting(text) > NESTING_LIMIT {
        Err(BootnodesFailure::Unreachable(spec_nested_too_deeply(chain)))
    } else {
        match toml_document(text) {
            Err(error) => Err(BootnodesFailure::Toml(error)),
            Ok(document) => spec_document_bootnodes(document, chain),
        }
    }
}

/// Once an item among the first is no string, no longer prefix has
/// strings alone.
pub proof fn lemma_item_strings_none_stays(items: Seq<toml::Value>, n: nat, m: nat)
    requires
        n <= m,
        spec_item_strings(items, n) is None,
    ensures
        spec_item_strings(items, m) is None,
    decreases m,
{
    if n < m {
        lemma_item_strings_none_stays(items, n, (m - 1) as nat);
    }
}

/// Once a prefix of the texts fails, every longer one fails on the same
/// text.
pub proof fn lemma_multiaddrs_error_stays(texts: Seq<Seq<char>>, n: nat, m: nat)
    requires
        n <= m,
        spec_multiaddrs(texts, n) is Err,
    ensures
        spec_multiaddrs(texts, m) == spec_multiaddrs(texts, n),
    decreases m,
{
    if n < m {
        lemma_multiaddrs_error_stays(texts, n, (m - 1) as nat);
    }
}

/// The error of a document that lacks what is looked for: the message is
/// `before`, the chain's name and `after`.
fn missing(before: &str, chain: &str, after: &str) -> (error: RegistryError)
    ensures
        error matches RegistryError::Unreachable(message) && message@ == before@ + chain@
            + after@,
{
    let mut message: String = before.to_owned();
    message.append(chain);
    message.append(after);
    RegistryError::Unreachable(message)
}

/// Takes the strings under `network.bootnodes` out of the configuration
/// document of `chain`.
pub fn raw_bootnodes_of_document(document: &toml::Value, chain: &str) -> (r: Result<
    Vec<String>,
    RegistryError,
>)
    ensures
        match spec_raw_bootnodes(*document, chain@) {
            Ok(strings) => r is Ok && strings_view(r->Ok_0@) == strings,
            Err(text) => r matches Err(RegistryError::Unreachable(message)) && message@ == text,
        },
{
    let network = match document_member(document, "network") {
        Some(network) => network,
        None => {
            return Err(missing("`network` for chain ", chain, " was not found"));
        },
    };
    let bootnodes = match document_member(network, "bootnodes") {
        Some(bootnodes) => bootnodes,
        None => {
            return Err(missing("`network::bootnodes` for chain ", chain, " was not found"));
        },
    };
    let items = match document_array(bootnodes) {
        Some(items) => items,
        None => {
            return Err(missing("`network::bootnodes` for chain ", chain, " was not array"));
        },
    };
    let mut strings: Vec<String> = Vec::new();
    let mut i: usize = 0;
    assert(strings_view(strings@) =~= Seq::<Seq<char>>::empty());
    while i < items.len()
        invariant
            i <= items@.len(),
            toml_member(*document, "network"@) == Some(*network),
            toml_member(*network, "bootnodes"@) == Some(*bootnodes),
            toml_array(*bootnodes) == Some(items@),
            spec_item_strings(items@, i as nat) == Some(strings_view(strings@)),
        decreases items@.len() - i,
    {
        match document_string(&items[i]) {
            Some(text) => {
                let ghost before = strings@;
                strings.push(text.to_owned());
                assert(strings_view(strings@) =~= strings_view(before).push(text@));
            },
            None => {
                proof {
                    assert(spec_item_strings(items@, (i + 1) as nat) is None);
                    lemma_item_strings_none_stays(items@, (i + 1) as nat, items@.len());
                }
                return Err(
                    missing(
                        "at least one item in `network::bootnodes` for chain ",
                        chain,
                        " was not string",
                    ),
                );
            },
        }
        i = i + 1;
    }
    Ok(strings)
}

/// Reads a text as a TOML document, unless it is nested more deeply than
/// the limit: such a text is not handed to the parser.
pub fn read_document(text: &str) -> (r: Option<Result<toml::Value, toml::de::Error>>)
    ensures
        r == if spec_text_nesting(text@) <= NESTING_LIMIT {
            Some(toml_document(text@))
        } else {
            None
        },
{
    if nesting_within_limit(text) {
        Some(parse_document(text))
    } else {
        None
    }
}

/// Reads the text of the configuration of `chain` as a TOML document and
/// takes the strings under `network.bootnodes` out of it. A text that is
/// nested more deeply than the limit is an internal error.
pub fn load_raw_bootnodes_from_text(text: &str, chain: &str) -> (r: Result<
    Vec<String>,
    RegistryError,
>)
    ensures
        if spec_text_nesting(text@) > NESTING_LIMIT {
            r matches Err(RegistryError::Unreachable(message)) && message@
                == spec_nested_too_deeply(chain@)
        } else {
            match toml_document(text@) {
                Err(error) => r == Err::<Vec<String>, RegistryError>(RegistryError::Toml(error)),
                Ok(document) => match spec_raw_bootnodes(document, chain@) {
                    Ok(strings) => r is Ok && strings_view(r->Ok_0@) == strings,
                    Err(text) => r matches Err(RegistryError::Unreachable(message)) && message@
                        == text,
                },
            }
        },
{
    match read_document(text) {
        Some(Ok(document)) => raw_bootnodes_of_document(&document, chain),
        Some(Err(error)) => Err(RegistryError::Toml(error)),
        None => Err(missing("document for chain ", chain, " was nested too deeply")),
    }
}

/// Reads each text as an address. It fails on the first that is none.
pub fn parse_multiaddrs(multiaddrs_str: &[String]) -> (r: Result<Vec<Multiaddr>, RegistryError>)
    ensures
        match spec_multiaddrs(strings_view(multiaddrs_str@), multiaddrs_str@.len()) {
            Ok(addrs) => r is Ok && r->Ok_0@ == addrs,
            Err(text) => r is Err && reports_failure(r->Err_0, BootnodesFailure::Unknown(text)),
        },
{
    let ghost texts = strings_view(multiaddrs_str@);
    let mut addrs: Vec<Multiaddr> = Vec::new();
    let mut i: usize = 0;
    while i < multiaddrs_str.len()
        invariant
            i <= multiaddrs_str@.len(),
            texts == strings_view(multiaddrs_str@),
            spec_multiaddrs(texts, i as nat) == Ok::<Seq<Multiaddr>, Seq<char>>(addrs@),
        decreases multiaddrs_str@.len() - i,
    {
        match parse_multiaddr(multiaddrs_str[i].as_str()) {
            Some(addr) => {
                addrs.push(addr);
            },
            None => {
                proof {
                    lemma_multiaddrs_error_stays(texts, (i + 1) as nat, texts.len());
                }
                return Err(RegistryError::Unknown("bootnode", multiaddrs_str[i].clone()));
            },
        }
        i = i + 1;
    }
    Ok(addrs)
}

/// The bootstrap peers of each network.
pub struct BootNodes(HashMap<u8, Vec<Multiaddr>>);

/// The peers of a map by network code, as a map by network.
pub closed spec fn peers_by_network(table: Map<u8, Vec<Multiaddr>>) -> Map<
    Network,
    Seq<Multiaddr>,
> {
    Map::new(
        |key: Network| table.contains_key(key.spec_code()),
        |key: Network| table[key.spec_code()]@,
    )
}

impl View for BootNodes {
    type V = Map<Network, Seq<Multiaddr>>;

    closed spec fn view(&self) -> Map<Network, Seq<Multiaddr>> {
        peers_by_network(self.0@)
    }
}

impl BootNodes {
    /// Every network has its list of peers.
    #[verifier::type_invariant]
    closed spec fn complete(&self) -> bool {
        forall|network: Network| #[trigger] self.0@.contains_key(network.spec_code())
    }

    /// The name of the chain under which the configuration of a network
    /// lies: the network's name in lower case.
    pub fn chain_name(network: Network) -> (name: &'static str)
        ensures
            name@ == spec_chain_name(network),
    {
        match network {
            Network::Mainnet => "mainnet",
            Network::Testnet => "testnet",
            Network::Staging => "staging",
            Network::Develop => "develop",
        }
    }

    /// Reads the peers of the four networks, each from the text of its
    /// configuration, in the order mainnet, testnet, staging, develop. It
    /// fails with the error of the first network whose peers cannot be
    /// had.
    pub fn initialize(mainnet: &str, testnet: &str, staging: &str, develop: &str) -> (r: Result<
        BootNodes,
        RegistryError,
    >)
        ensures
            match spec_bootnodes(mainnet@, spec_chain_name(Network::Mainnet)) {
                Err(failure) => r is Err && reports_failure(r->Err_0, failure),
                Ok(first) => match spec_bootnodes(testnet@, spec_chain_name(Network::Testnet)) {
                    Err(failure) => r is Err && reports_failure(r->Err_0, failure),
                    Ok(second) => match spec_bootnodes(
                        staging@,
                        spec_chain_name(Network::Staging),
                    ) {
                        Err(failure) => r is Err && reports_failure(r->Err_0, failure),
                        Ok(third) => match spec_bootnodes(
                            develop@,
                            spec_chain_name(Network::Develop),
                        ) {
                            Err(failure) => r is Err && reports_failure(r->Err_0, failure),
                            Ok(fourth) => r is Ok && r->Ok_0@ == Map::<
                                Network,
                                Seq<Multiaddr>,
                            >::empty().insert(Network::Mainnet, first).insert(
                                Network::Testnet,
                                second,
                            ).insert(Network::Staging, third).insert(Network::Develop, fourth),
                        },
                    },
                },
            },
    {
        let mut table: HashMap<u8, Vec<Multiaddr>> = HashMap::new();
        assert(peers_by_network(table@) =~= Map::<Network, Seq<Multiaddr>>::empty());
        match BootNodes::initialize_network(&mut table, Network::Mainnet, mainnet) {
            Ok(()) => {},
            Err(error) => {
                return Err(error);
            },
        }
        match BootNodes::initialize_network(&mut table, Network::Testnet, testnet) {
            Ok(()) => {},
            Err(error) => {
                return Err(error);
            },
        }
        match BootNodes::initialize_network(&mut table, Network::Staging, staging) {
            Ok(()) => {},
            Err(error) => {
                return Err(error);
            },
        }
        match BootNodes::initialize_network(&mut table, Network::Develop, develop) {
            Ok(()) => {},
            Err(error) => {
                return Err(error);
            },
        }
        assert forall|network: Network| #[trigger]
            table@.contains_key(network.spec_code()) by {
            assert(peers_by_network(table@).contains_key(network));
        }
        Ok(BootNodes(table))
    }

    /// Reads the peers of one network from the text of its configuration
    /// and puts them into the table under the network.
    fn initialize_network(
        table: &mut HashMap<u8, Vec<Multiaddr>>,
        network: Network,
        text: &str,
    ) -> (r: Result<(), RegistryError>)
        ensures
            match spec_bootnodes(text@, spec_chain_name(network)) {
                Ok(addrs) => r is Ok && peers_by_network(final(table)@) == peers_by_network(
                    old(table)@,
                ).insert(network, addrs),
                Err(failure) => r is Err && reports_failure(r->Err_0, failure) && *final(table)
                    == *old(table),
            },
    {
        let chain = BootNodes::chain_name(network);
        let raw_bootnodes = match load_raw_bootnodes_from_text(text, chain) {
            Ok(raw) => raw,
            Err(error) => {
                return Err(error);
            },
        };
        let addrs = match parse_multiaddrs(raw_bootnodes.as_slice()) {
            Ok(addrs) => addrs,
            Err(error) => {
                return Err(error);
            },
        };
        let ghost before = table@;
        let ghost peers = addrs@;
        table.insert(network.code(), addrs);
        assert(peers_by_network(table@) =~= peers_by_network(before).insert(network, peers));
        Ok(())
    }

    /// The peers of a network.
    pub fn lookup(&self, network: Network) -> (peers: &[Multiaddr])
        ensures
            self@.contains_key(network),
            peers@ == self@[network],
    {
        proof {
            use_type_invariant(self);
            assert(self.0@.contains_key(network.spec_code()));
        }
        match self.0.get(&network.code()) {
            Some(peers) => peers.as_slice(),
            None => vstd::pervasive::unreached(),
        }
    }
}

} // verus!
