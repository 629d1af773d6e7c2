use chain_registry::blockchain::Network;
use chain_registry::bootnodes::{
    load_raw_bootnodes_from_text, parse_multiaddrs, raw_bootnodes_of_document, read_document,
    BootNodes,
};
use chain_registry::nesting::{nesting_within_limit, NESTING_LIMIT};
use chain_registry::error::RegistryError;

const MAINNET: &str = "[network]\nbootnodes = [\"/ip4/47.110.15.57/tcp/8114\", \"/ip4/47.245.31.79/tcp/8114\"]\n";
const TESTNET: &str = "[network]\nbootnodes = [\"/ip4/47.111.169.36/tcp/8111\"]\n";
const STAGING: &str = "[network]\nbootnodes = []\n";
const DEVELOP: &str = "[network]\nbootnodes = [\"/ip4/127.0.0.1/tcp/8115\"]\n[rpc]\nlisten = \"x\"\n";

fn message(error: RegistryError) -> String {
    match error {
        RegistryError::Unreachable(message) => message,
        other => panic!("not an internal error: {:?}", other),
    }
}

fn failure(r: Result<BootNodes, RegistryError>) -> RegistryError {
    match r {
        Ok(_) => panic!("the peers were read"),
        Err(error) => error,
    }
}

#[test]
fn raw_bootnodes_are_the_strings_of_the_list() {
    assert_eq!(
        load_raw_bootnodes_from_text(MAINNET, "mainnet").unwrap(),
        vec!["/ip4/47.110.15.57/tcp/8114".to_owned(), "/ip4/47.245.31.79/tcp/8114".to_owned()]
    );
    assert_eq!(load_raw_bootnodes_from_text(STAGING, "staging").unwrap(), Vec::<String>::new());
    let document = DEVELOP.parse::<toml::Value>().unwrap();
    assert_eq!(
        raw_bootnodes_of_document(&document, "develop").unwrap(),
        vec!["/ip4/127.0.0.1/tcp/8115".to_owned()]
    );
}

#[test]
fn a_text_that_is_no_toml_is_a_toml_error() {
    match load_raw_bootnodes_from_text("[network", "mainnet") {
        Err(RegistryError::Toml(_)) => {}
        _ => panic!("the text is no TOML"),
    }
}

#[test]
fn a_document_without_network_is_an_internal_error() {
    assert_eq!(
        message(load_raw_bootnodes_from_text("[rpc]\nx = 1\n", "mainnet").unwrap_err()),
        "`network` for chain mainnet was not found"
    );
    assert_eq!(
        message(load_raw_bootnodes_from_text("", "testnet").unwrap_err()),
        "`network` for chain testnet was not found"
    );
}

#[test]
fn a_document_without_bootnodes_is_an_internal_error() {
    assert_eq!(
        message(load_raw_bootnodes_from_text("[network]\nx = 1\n", "staging").unwrap_err()),
        "`network::bootnodes` for chain staging was not found"
    );
    assert_eq!(
        message(load_raw_bootnodes_from_text("network = 3\n", "staging").unwrap_err()),
        "`network::bootnodes` for chain staging was not found"
    );
}

#[test]
fn bootnodes_that_are_no_array_are_an_internal_error() {
    assert_eq!(
        message(
            load_raw_bootnodes_from_text("[network]\nbootnodes = \"a\"\n", "develop").unwrap_err()
        ),
        "`network::bootnodes` for chain develop was not array"
    );
}

#[test]
fn a_bootnode_that_is_no_string_is_an_internal_error() {
    assert_eq!(
        message(
            load_raw_bootnodes_from_text("[network]\nbootnodes = [[\"a\"], [1]]\n", "mainnet")
                .unwrap_err()
        ),
        "at least one item in `network::bootnodes` for chain mainnet was not string"
    );
    assert_eq!(
        message(
            load_raw_bootnodes_from_text("[network]\nbootnodes = [1, 2]\n", "mainnet")
                .unwrap_err()
        ),
        "at least one item in `network::bootnodes` for chain mainnet was not string"
    );
}

#[test]
fn addresses_are_read_in_their_order() {
    let texts = vec!["/ip4/127.0.0.1/tcp/8115".to_owned(), "/ip4/10.0.0.1/tcp/1".to_owned()];
    let addrs = parse_multiaddrs(&texts).unwrap();
    assert_eq!(addrs.len(), 2);
    assert_eq!(addrs[0].to_string(), "/ip4/127.0.0.1/tcp/8115");
    assert_eq!(addrs[1].to_string(), "/ip4/10.0.0.1/tcp/1");
    assert_eq!(parse_multiaddrs(&[]).unwrap().len(), 0);
}

#[test]
fn the_first_text_that_is_no_address_is_reported() {
    let texts = vec![
        "/ip4/127.0.0.1/tcp/8115".to_owned(),
        "not-an-address".to_owned(),
        "neither".to_owned(),
    ];
    match parse_multiaddrs(&texts) {
        Err(RegistryError::Unknown(kind, value)) => {
            assert_eq!(kind, "bootnode");
            assert_eq!(value, "not-an-address");
        }
        _ => panic!("the second text is no address"),
    }
}

#[test]
fn chain_names_are_the_lower_case_names() {
    for network in [Network::Mainnet, Network::Testnet, Network::Staging, Network::Develop] {
        assert_eq!(BootNodes::chain_name(network), network.to_string().to_lowercase());
    }
}

#[test]
fn every_network_has_its_peers() {
    let nodes = BootNodes::initialize(MAINNET, TESTNET, STAGING, DEVELOP).unwrap();
    assert_eq!(nodes.lookup(Network::Mainnet).len(), 2);
    assert_eq!(nodes.lookup(Network::Mainnet)[1].to_string(), "/ip4/47.245.31.79/tcp/8114");
    assert_eq!(nodes.lookup(Network::Testnet).len(), 1);
    assert_eq!(nodes.lookup(Network::Testnet)[0].to_string(), "/ip4/47.111.169.36/tcp/8111");
    assert_eq!(nodes.lookup(Network::Staging).len(), 0);
    assert_eq!(nodes.lookup(Network::Develop).len(), 1);
    assert_eq!(nodes.lookup(Network::Develop)[0].to_string(), "/ip4/127.0.0.1/tcp/8115");
}

#[test]
fn the_first_network_that_fails_is_reported() {
    let bad = "[network]\nbootnodes = [\"nowhere\"]\n";
    match failure(BootNodes::initialize(MAINNET, bad, "[network]\n", DEVELOP)) {
        RegistryError::Unknown(kind, value) => {
            assert_eq!(kind, "bootnode");
            assert_eq!(value, "nowhere");
        }
        other => panic!("not an unknown name: {:?}", other),
    }
    assert_eq!(
        message(failure(BootNodes::initialize(MAINNET, TESTNET, "[network]\n", bad))),
        "`network::bootnodes` for chain staging was not found"
    );
    match failure(BootNodes::initialize(MAINNET, TESTNET, STAGING, "=")) {
        RegistryError::Toml(_) => {}
        other => panic!("not a TOML error: {:?}", other),
    }
}

#[test]
fn a_flat_document_of_any_length_is_read() {
    let addrs: Vec<String> =
        (0..10_000).map(|i| format!("/ip4/10.{}.{}.1/tcp/8114", i / 250, i % 250)).collect();
    let list: Vec<String> = addrs.iter().map(|addr| format!("\"{}\"", addr)).collect();
    let one_line = format!("[network]\nbootnodes = [{}]\n", list.join(", "));
    assert!(nesting_within_limit(&one_line));
    assert_eq!(load_raw_bootnodes_from_text(&one_line, "mainnet").unwrap(), addrs);
    let many_lines = format!("[network]\nbootnodes = [\n{},\n]\n", list.join(",\n"));
    assert_eq!(load_raw_bootnodes_from_text(&many_lines, "mainnet").unwrap(), addrs);
    let comment = format!("# see {}\n[network]\nbootnodes = []\n", "a.b[{".repeat(50_000));
    assert_eq!(load_raw_bootnodes_from_text(&comment, "mainnet").unwrap(), Vec::<String>::new());
    let mut tables = String::from("[network]\nbootnodes = [\"a\"]\n");
    for i in 0..2_000 {
        tables.push_str(&format!("[t{}.u]\nv.w = [1.5, {{ x.y = 2.5 }}]\n", i));
    }
    assert_eq!(load_raw_bootnodes_from_text(&tables, "mainnet").unwrap(), vec!["a".to_owned()]);
    let floats = format!("a = [{}]\n[network]\nbootnodes = []\n", "1.5, ".repeat(5_000));
    assert_eq!(load_raw_bootnodes_from_text(&floats, "mainnet").unwrap(), Vec::<String>::new());
}

#[test]
fn a_flat_text_that_is_no_toml_is_a_toml_error() {
    let text = format!("# {}\n[network\n", "[.{".repeat(10_000));
    match load_raw_bootnodes_from_text(&text, "mainnet") {
        Err(RegistryError::Toml(_)) => {}
        _ => panic!("the text is no TOML"),
    }
    let text = format!("a = \"{}\"\nb = \n", "1.2.3.4 ".repeat(10_000));
    match load_raw_bootnodes_from_text(&text, "mainnet") {
        Err(RegistryError::Toml(_)) => {}
        _ => panic!("the text is no TOML"),
    }
}

#[test]
fn brackets_and_dots_in_strings_and_comments_are_no_nesting() {
    assert_eq!(NESTING_LIMIT, 128);
    let marks = "[{.".repeat(1_000);
    let texts = vec![
        String::new(),
        format!("a = \"{}\"\n", marks),
        format!("a = '{}'\n", marks),
        format!("a = \"\"\"\n{}\n\"\" {} \"\"\"\n", marks, marks),
        format!("a = '''\n{}\n'' {} '''\n", marks, marks),
        format!("a = \"\\\"{}\\\\\"\n", marks),
        format!("\"{}\" = 1\n", marks),
        format!("a = 1 # {}\n", marks),
        format!("a = \"\"\"x\"\"\"\"\"\nb = \"{}\"\n", marks),
    ];
    for text in texts {
        assert!(nesting_within_limit(&text), "{}", &text[..text.len().min(40)]);
        assert!(read_document(&text).unwrap().is_ok(), "{}", &text[..text.len().min(40)]);
    }
}

#[test]
fn nesting_is_counted_up_to_the_limit() {
    let nested = |depth: usize| format!("a = {}{}\n", "[".repeat(depth), "]".repeat(depth));
    assert!(nesting_within_limit(&nested(128)));
    assert!(read_document(&nested(128)).unwrap().is_ok());
    assert!(!nesting_within_limit(&nested(129)));
    assert!(read_document(&nested(129)).is_none());
    let tables = |depth: usize| {
        format!("a = {}{}\n", "{ b = ".repeat(depth), format!("1{}", " }".repeat(depth)))
    };
    assert!(read_document(&tables(128)).unwrap().is_ok());
    assert!(read_document(&tables(129)).is_none());
    let header = |dots: usize| format!("[a{}]\nb = 1\n", ".a".repeat(dots));
    assert!(read_document(&header(127)).unwrap().is_ok());
    assert!(read_document(&header(128)).is_none());
    let key = |dots: usize| format!("a{} = 1\n", ".a".repeat(dots));
    assert!(read_document(&key(128)).unwrap().is_ok());
    assert!(read_document(&key(129)).is_none());
    let deepest = format!(
        "[h{}]\nk{} = [1]\n[network]\nbootnodes = []\n",
        ".h".repeat(127),
        ".k".repeat(127)
    );
    assert_eq!(load_raw_bootnodes_from_text(&deepest, "mainnet").unwrap(), Vec::<String>::new());
    let many = format!("{}[network]\nbootnodes = []\n", nested(127).replace("a =", "a.b =").repeat(1_000));
    assert!(nesting_within_limit(&many));
    assert!(read_document(&many).unwrap().is_err());
    assert!(nesting_within_limit(&format!("x = [\n{}]\n", "[1.5, 2.5],\n".repeat(10_000))));
}

#[test]
fn a_text_nested_beyond_the_limit_is_not_read() {
    let deep = format!("a = {}", "[".repeat(100_000));
    assert!(!nesting_within_limit(&deep));
    assert!(read_document(&deep).is_none());
    assert_eq!(
        message(load_raw_bootnodes_from_text(&deep, "develop").unwrap_err()),
        "document for chain develop was nested too deeply"
    );
    let keys = format!("a{} = 1\n", ".a".repeat(100_000));
    assert_eq!(
        message(load_raw_bootnodes_from_text(&keys, "testnet").unwrap_err()),
        "document for chain testnet was nested too deeply"
    );
    assert_eq!(
        message(failure(BootNodes::initialize(MAINNET, TESTNET, &deep, DEVELOP))),
        "document for chain staging was nested too deeply"
    );
}

#[test]
fn nesting_after_a_string_or_a_comment_is_still_counted() {
    let prefixes = vec![
        "a = \"x\\\"y\"\n",
        "a = \"x\\\\\"\n",
        "a = 'x\\'\n",
        "a = \"\"\"x\"\"\"\"\n",
        "a = \"\"\"x\"\"\"\"\"\n",
        "a = \"\"\"x\" \"\" y\"\"\"\n",
        "a = '''x''''\n",
        "a = '''x' '' y'''\n",
        "a = \"\" # \"\n",
        "a = '' # '\n",
        "a = \"#\"\n",
        "a = '#'\n",
        "a = \"\"\"\\\n   \"\"\"\n",
        "a = \"\"\"\n\\\"\" \"\"\"\n",
        "a = 1 # \" ' \"\"\" '''\n",
        "\"a#b\" = 1\n",
        "'a\"b' = \"'\"\n",
        "a = \"\\u0022\"\r\n",
        "[t] # [\r\n\"k.k\" = { x = \"}\" } # {\n",
    ];
    for prefix in prefixes {
        let within = format!("{}z = {}{}\n", prefix, "[".repeat(128), "]".repeat(128));
        assert!(read_document(&within).unwrap().is_ok(), "{}", prefix);
        let beyond = format!("{}z = {}{}\n", prefix, "[".repeat(129), "]".repeat(129));
        assert!(read_document(&beyond).is_none(), "{}", prefix);
        let keys = format!("{}z{} = 1\n", prefix, ".z".repeat(129));
        assert!(read_document(&keys).is_none(), "{}", prefix);
    }
}

#[test]
fn the_deepest_document_within_the_limit_is_read() {
    let mut text = String::new();
    for parts in 1..=127 {
        text.push_str(&format!("[[t{}]]\n", ".t".repeat(parts - 1)));
    }
    text.push_str(&format!("k{} = [1]\n", ".k".repeat(127)));
    text.push_str("[network]\nbootnodes = [\"a\"]\n");
    assert!(nesting_within_limit(&text));
    assert_eq!(load_raw_bootnodes_from_text(&text, "mainnet").unwrap(), vec!["a".to_owned()]);
    let inline = format!(
        "[h{}]\nk{} = {}1{}\n[network]\nbootnodes = []\n",
        ".h".repeat(127),
        ".k".repeat(32),
        "{ m.m.m = ".repeat(32),
        " }".repeat(32)
    );
    assert!(nesting_within_limit(&inline));
    assert_eq!(load_raw_bootnodes_from_text(&inline, "mainnet").unwrap(), Vec::<String>::new());
}
