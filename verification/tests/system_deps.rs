use chain_registry::blockchain::{Bundled, DepGroupId, Network};
use chain_registry::error::RegistryError;
use chain_registry::system_deps::{
    network_from_spec_name, RawDepGroup, RawSpecHashes, RawSystemCell, SpecHashes, SystemDeps,
};
use ckb_types::H256;

const SIGHASH: &str = "Bundled(specs/cells/secp256k1_blake160_sighash_all)";
const MULTISIG: &str = "Bundled(specs/cells/secp256k1_blake160_multisig_all)";
const DATA: &str = "Bundled(specs/cells/secp256k1_data)";
const DAO: &str = "Bundled(specs/cells/dao)";

fn hash(byte: u8) -> H256 {
    H256([byte; 32])
}

fn raw_cell(path: &str, index: usize, byte: u8, typed: bool) -> RawSystemCell {
    RawSystemCell {
        path: path.to_owned(),
        tx_hash: hash(byte),
        index,
        data_hash: hash(byte + 1),
        type_hash: if typed { Some(hash(byte + 2)) } else { None },
    }
}

fn raw_group(paths: &[&str], index: usize, byte: u8) -> RawDepGroup {
    RawDepGroup {
        included_cells: paths.iter().map(|path| (*path).to_owned()).collect(),
        tx_hash: hash(byte),
        index,
    }
}

fn raw_spec(byte: u8) -> RawSpecHashes {
    RawSpecHashes {
        genesis: hash(byte),
        cellbase: hash(byte + 1),
        system_cells: vec![
            raw_cell(SIGHASH, 1, byte + 10, true),
            raw_cell(DAO, 2, byte + 20, true),
            raw_cell(DATA, 3, byte + 30, false),
            raw_cell(MULTISIG, 4, byte + 40, false),
        ],
        dep_groups: vec![
            raw_group(&[DATA, SIGHASH], 0, byte + 50),
            raw_group(&[DATA, MULTISIG], 1, byte + 60),
        ],
    }
}

fn full_table() -> Vec<(String, RawSpecHashes)> {
    vec![
        ("ckb".to_owned(), raw_spec(1)),
        ("ckb_dev".to_owned(), raw_spec(2)),
        ("ckb_staging".to_owned(), raw_spec(3)),
        ("ckb_testnet".to_owned(), raw_spec(4)),
    ]
}

fn unknown(error: RegistryError) -> (String, String) {
    match error {
        RegistryError::Unknown(kind, value) => (kind.to_owned(), value),
        other => panic!("not an unknown name: {:?}", other),
    }
}

fn failure(r: Result<SystemDeps, RegistryError>) -> RegistryError {
    match r {
        Ok(_) => panic!("the table was built"),
        Err(error) => error,
    }
}

#[test]
fn spec_names_stand_for_networks() {
    assert_eq!(network_from_spec_name("ckb").unwrap(), Network::Mainnet);
    assert_eq!(network_from_spec_name("ckb_testnet").unwrap(), Network::Testnet);
    assert_eq!(network_from_spec_name("ckb_staging").unwrap(), Network::Staging);
    assert_eq!(network_from_spec_name("ckb_dev").unwrap(), Network::Develop);
    assert_eq!(network_from_spec_name("mainnet").unwrap(), Network::Mainnet);
    assert_eq!(network_from_spec_name("develop").unwrap(), Network::Develop);
}

#[test]
fn other_spec_names_are_unknown_networks() {
    for name in ["", "ckb_mainnet", "CKB", "dev"] {
        let (kind, value) = unknown(network_from_spec_name(name).unwrap_err());
        assert_eq!(kind, "network");
        assert_eq!(value, name);
    }
}

#[test]
fn every_resource_of_every_network_is_found_with_its_own_index() {
    let deps = SystemDeps::initialize(&full_table()).unwrap();
    let networks = [
        (Network::Mainnet, 1u8),
        (Network::Develop, 2u8),
        (Network::Staging, 3u8),
        (Network::Testnet, 4u8),
    ];
    let cells = [
        (Bundled::Secp256k1Blake160, 1usize, 10u8, true),
        (Bundled::Dao, 2usize, 20u8, true),
        (Bundled::Secp256k1Data, 3usize, 30u8, false),
        (Bundled::Secp256k1Blake160MultiSig, 4usize, 40u8, false),
    ];
    for (network, byte) in networks {
        let mut seen: Vec<usize> = Vec::new();
        for (key, index, offset, typed) in cells {
            let cell = deps.lookup_system_cell(network, key).unwrap();
            assert_eq!(cell.index(), index);
            assert!(cell.index() > 0);
            assert!(!seen.contains(&cell.index()));
            seen.push(cell.index());
            assert_eq!(cell.tx_hash(), &hash(byte + offset));
            assert_eq!(cell.data_hash(), &hash(byte + offset + 1));
            let type_hash = if typed { Some(hash(byte + offset + 2)) } else { None };
            assert_eq!(cell.type_hash(), &type_hash);
        }
        let hashes = deps.spec_hashes(network).unwrap();
        assert_eq!(hashes.genesis(), &hash(byte));
        assert_eq!(hashes.cellbase(), &hash(byte + 1));
    }
}

#[test]
fn every_group_of_every_network_is_found() {
    let deps = SystemDeps::initialize(&full_table()).unwrap();
    let group = deps.lookup_dep_group(Network::Mainnet, DepGroupId::Secp256k1Blake160).unwrap();
    assert_eq!(group.index(), 0);
    assert_eq!(group.tx_hash(), &hash(51));
    let group =
        deps.lookup_dep_group(Network::Testnet, DepGroupId::Secp256k1Blake160MultiSig).unwrap();
    assert_eq!(group.index(), 1);
    assert_eq!(group.tx_hash(), &hash(64));
}

#[test]
fn loading_twice_gives_the_same_table() {
    let first = SystemDeps::initialize(&full_table()).unwrap();
    let second = SystemDeps::initialize(&full_table()).unwrap();
    for network in [Network::Mainnet, Network::Testnet, Network::Staging, Network::Develop] {
        for group in [DepGroupId::Secp256k1Blake160, DepGroupId::Secp256k1Blake160MultiSig] {
            let a = first.lookup_dep_group(network, group).unwrap();
            let b = second.lookup_dep_group(network, group).unwrap();
            assert_eq!(a.index(), b.index());
            assert_eq!(a.tx_hash(), b.tx_hash());
        }
    }
}

#[test]
fn a_truncated_table_reports_the_missing_cell() {
    let mut spec = raw_spec(1);
    spec.system_cells.truncate(2);
    spec.dep_groups.truncate(1);
    let deps = SystemDeps::initialize(&vec![("ckb".to_owned(), spec)]).unwrap();
    assert!(deps.lookup_system_cell(Network::Mainnet, Bundled::Dao).is_ok());
    match deps.lookup_system_cell(Network::Mainnet, Bundled::Secp256k1Data) {
        Err(RegistryError::UnknownSystemCell(network, key)) => {
            assert_eq!(network, Network::Mainnet);
            assert_eq!(key, Bundled::Secp256k1Data);
        }
        _ => panic!("the cell is not in the table"),
    }
    match deps.lookup_system_cell(Network::Testnet, Bundled::Dao) {
        Err(RegistryError::UnknownSystemCell(network, key)) => {
            assert_eq!(network, Network::Testnet);
            assert_eq!(key, Bundled::Dao);
        }
        _ => panic!("the network is not in the table"),
    }
    match deps.lookup_dep_group(Network::Mainnet, DepGroupId::Secp256k1Blake160MultiSig) {
        Err(RegistryError::UnknownDepGroup(network, key)) => {
            assert_eq!(network, Network::Mainnet);
            assert_eq!(key, DepGroupId::Secp256k1Blake160MultiSig);
        }
        _ => panic!("the group is not in the table"),
    }
    match deps.lookup_dep_group(Network::Develop, DepGroupId::Secp256k1Blake160) {
        Err(RegistryError::UnknownDepGroup(network, key)) => {
            assert_eq!(network, Network::Develop);
            assert_eq!(key, DepGroupId::Secp256k1Blake160);
        }
        _ => panic!("the network is not in the table"),
    }
}

#[test]
fn an_empty_table_has_no_record() {
    let deps = SystemDeps::initialize(&Vec::new()).unwrap();
    assert!(deps.spec_hashes(Network::Mainnet).is_none());
    assert!(deps.lookup_system_cell(Network::Mainnet, Bundled::Dao).is_err());
}

#[test]
fn an_unknown_path_fails_the_load() {
    let mut spec = raw_spec(1);
    spec.system_cells[2].path = "not/a/real/resource".to_owned();
    spec.system_cells[3].path = "neither".to_owned();
    let (kind, value) = unknown(failure(SystemDeps::initialize(&vec![("ckb".to_owned(), spec)])));
    assert_eq!(kind, "bundled");
    assert_eq!(value, "not/a/real/resource");
}

#[test]
fn an_unknown_included_cell_fails_the_load() {
    let mut spec = raw_spec(1);
    spec.dep_groups[1].included_cells[0] = "nothing".to_owned();
    let (kind, value) = unknown(failure(SystemDeps::initialize(&vec![("ckb".to_owned(), spec)])));
    assert_eq!(kind, "bundled");
    assert_eq!(value, "nothing");
}

#[test]
fn an_unknown_group_fails_the_load() {
    let mut spec = raw_spec(1);
    spec.dep_groups[0] = raw_group(&[SIGHASH, DATA], 0, 50);
    let (kind, value) = unknown(failure(SystemDeps::initialize(&vec![("ckb".to_owned(), spec)])));
    assert_eq!(kind, "dep-group");
    assert_eq!(value, "[Secp256k1Blake160, Secp256k1Data]");
    let mut spec = raw_spec(1);
    spec.dep_groups[1] = raw_group(&[DATA], 1, 50);
    let (kind, value) = unknown(failure(SystemDeps::initialize(&vec![("ckb".to_owned(), spec)])));
    assert_eq!(kind, "dep-group");
    assert_eq!(value, "[Secp256k1Data]");
}

#[test]
fn an_unknown_spec_name_fails_the_load_before_its_records() {
    let mut spec = raw_spec(1);
    spec.system_cells[0].path = "nothing".to_owned();
    let table = vec![("ckb".to_owned(), raw_spec(1)), ("ckb_other".to_owned(), spec)];
    let (kind, value) = unknown(failure(SystemDeps::initialize(&table)));
    assert_eq!(kind, "network");
    assert_eq!(value, "ckb_other");
}

#[test]
fn cells_fail_before_groups() {
    let mut spec = raw_spec(1);
    spec.system_cells[3].path = "late".to_owned();
    spec.dep_groups[0].included_cells[0] = "early".to_owned();
    let (kind, value) = unknown(failure(SystemDeps::initialize(&vec![("ckb".to_owned(), spec)])));
    assert_eq!(kind, "bundled");
    assert_eq!(value, "late");
}

#[test]
fn a_later_record_replaces_an_earlier_one() {
    let mut spec = raw_spec(1);
    spec.system_cells.push(raw_cell(DAO, 9, 90, false));
    spec.dep_groups.push(raw_group(&[DATA, SIGHASH], 7, 70));
    let table = vec![("ckb".to_owned(), raw_spec(5)), ("mainnet".to_owned(), spec)];
    let deps = SystemDeps::initialize(&table).unwrap();
    let cell = deps.lookup_system_cell(Network::Mainnet, Bundled::Dao).unwrap();
    assert_eq!(cell.index(), 9);
    assert_eq!(cell.tx_hash(), &hash(90));
    assert_eq!(cell.type_hash(), &None);
    let group = deps.lookup_dep_group(Network::Mainnet, DepGroupId::Secp256k1Blake160).unwrap();
    assert_eq!(group.index(), 7);
    assert_eq!(deps.spec_hashes(Network::Mainnet).unwrap().genesis(), &hash(1));
}

#[test]
fn spec_hashes_from_raw_keeps_the_records() {
    let hashes = SpecHashes::from_raw(&raw_spec(7)).unwrap();
    assert_eq!(hashes.genesis(), &hash(7));
    assert_eq!(hashes.cellbase(), &hash(8));
    assert_eq!(hashes.system_cell(Bundled::Secp256k1Data).unwrap().index(), 3);
    assert_eq!(hashes.dep_group(DepGroupId::Secp256k1Blake160MultiSig).unwrap().index(), 1);
    let empty = SpecHashes::from_raw(&RawSpecHashes {
        genesis: hash(1),
        cellbase: hash(2),
        system_cells: Vec::new(),
        dep_groups: Vec::new(),
    })
    .unwrap();
    assert!(empty.system_cell(Bundled::Dao).is_none());
    assert!(empty.dep_group(DepGroupId::Secp256k1Blake160).is_none());
}

#[test]
fn every_record_of_a_network_is_listed() {
    let deps = SystemDeps::initialize(&full_table()).unwrap();
    let hashes = deps.spec_hashes(Network::Staging).unwrap();
    let cells = hashes.system_cells();
    let keys: Vec<Bundled> = cells.iter().map(|(key, _)| *key).collect();
    assert_eq!(
        keys,
        vec![
            Bundled::Secp256k1Blake160,
            Bundled::Secp256k1Blake160MultiSig,
            Bundled::Secp256k1Data,
            Bundled::Dao,
        ]
    );
    let indexes: Vec<usize> = cells.iter().map(|(_, cell)| cell.index()).collect();
    assert_eq!(indexes, vec![1, 4, 3, 2]);
    for (key, cell) in cells {
        assert_eq!(cell.tx_hash(), hashes.system_cell(key).unwrap().tx_hash());
    }
    let groups = hashes.dep_groups();
    let keys: Vec<DepGroupId> = groups.iter().map(|(key, _)| *key).collect();
    assert_eq!(keys, vec![DepGroupId::Secp256k1Blake160, DepGroupId::Secp256k1Blake160MultiSig]);
    assert_eq!(groups[0].1.index(), 0);
    assert_eq!(groups[1].1.index(), 1);
}

#[test]
fn only_the_records_that_are_there_are_listed() {
    let mut spec = raw_spec(1);
    spec.system_cells.remove(0);
    spec.system_cells.remove(1);
    spec.dep_groups.remove(0);
    let hashes = SpecHashes::from_raw(&spec).unwrap();
    let keys: Vec<Bundled> = hashes.system_cells().iter().map(|(key, _)| *key).collect();
    assert_eq!(keys, vec![Bundled::Secp256k1Blake160MultiSig, Bundled::Dao]);
    let keys: Vec<DepGroupId> = hashes.dep_groups().iter().map(|(key, _)| *key).collect();
    assert_eq!(keys, vec![DepGroupId::Secp256k1Blake160MultiSig]);
    let empty = SpecHashes::from_raw(&RawSpecHashes {
        genesis: hash(1),
        cellbase: hash(2),
        system_cells: Vec::new(),
        dep_groups: Vec::new(),
    })
    .unwrap();
    assert!(empty.system_cells().is_empty());
    assert!(empty.dep_groups().is_empty());
}

#[test]
fn a_table_written_back_loads_to_the_same_table() {
    let first = SystemDeps::initialize(&full_table()).unwrap();
    let entries = first.to_entries();
    let names: Vec<&str> = entries.iter().map(|(name, _)| name.as_str()).collect();
    assert_eq!(names, vec!["ckb", "ckb_testnet", "ckb_staging", "ckb_dev"]);
    let paths: Vec<&str> =
        entries[0].1.system_cells.iter().map(|cell| cell.path.as_str()).collect();
    assert_eq!(paths, vec![SIGHASH, MULTISIG, DATA, DAO]);
    assert_eq!(entries[0].1.dep_groups[0].included_cells, vec![DATA, SIGHASH]);
    assert_eq!(entries[0].1.dep_groups[1].included_cells, vec![DATA, MULTISIG]);
    let second = SystemDeps::initialize(&entries).unwrap();
    for network in [Network::Mainnet, Network::Testnet, Network::Staging, Network::Develop] {
        let a = first.spec_hashes(network).unwrap();
        let b = second.spec_hashes(network).unwrap();
        assert_eq!(a.genesis(), b.genesis());
        assert_eq!(a.cellbase(), b.cellbase());
        for key in [
            Bundled::Secp256k1Blake160,
            Bundled::Secp256k1Blake160MultiSig,
            Bundled::Secp256k1Data,
            Bundled::Dao,
        ] {
            let x = first.lookup_system_cell(network, key).unwrap();
            let y = second.lookup_system_cell(network, key).unwrap();
            assert_eq!(x.tx_hash(), y.tx_hash());
            assert_eq!(x.index(), y.index());
            assert_eq!(x.data_hash(), y.data_hash());
            assert_eq!(x.type_hash(), y.type_hash());
        }
        for key in [DepGroupId::Secp256k1Blake160, DepGroupId::Secp256k1Blake160MultiSig] {
            let x = first.lookup_dep_group(network, key).unwrap();
            let y = second.lookup_dep_group(network, key).unwrap();
            assert_eq!(x.tx_hash(), y.tx_hash());
            assert_eq!(x.index(), y.index());
        }
    }
}

#[test]
fn a_truncated_table_is_written_back_truncated() {
    let mut spec = raw_spec(1);
    spec.system_cells.truncate(2);
    spec.dep_groups.remove(0);
    let deps = SystemDeps::initialize(&vec![("ckb_dev".to_owned(), spec)]).unwrap();
    let entries = deps.to_entries();
    assert_eq!(entries.len(), 1);
    assert_eq!(entries[0].0, "ckb_dev");
    let raw = &entries[0].1;
    assert_eq!(raw.genesis, hash(1));
    assert_eq!(raw.cellbase, hash(2));
    assert_eq!(raw.system_cells.len(), 2);
    assert_eq!(raw.system_cells[0].path, SIGHASH);
    assert_eq!(raw.system_cells[0].index, 1);
    assert_eq!(raw.system_cells[0].tx_hash, hash(11));
    assert_eq!(raw.system_cells[0].data_hash, hash(12));
    assert_eq!(raw.system_cells[0].type_hash, Some(hash(13)));
    assert_eq!(raw.system_cells[1].path, DAO);
    assert_eq!(raw.system_cells[1].index, 2);
    assert_eq!(raw.dep_groups.len(), 1);
    assert_eq!(raw.dep_groups[0].included_cells, vec![DATA, MULTISIG]);
    assert_eq!(raw.dep_groups[0].index, 1);
    assert_eq!(raw.dep_groups[0].tx_hash, hash(61));
    assert!(SystemDeps::initialize(&Vec::new()).unwrap().to_entries().is_empty());
    let back = SystemDeps::initialize(&entries).unwrap();
    assert!(back.lookup_system_cell(Network::Develop, Bundled::Secp256k1Data).is_err());
    assert_eq!(back.lookup_system_cell(Network::Develop, Bundled::Dao).unwrap().index(), 2);
}

#[test]
fn names_and_paths_read_back() {
    for code in 0..4u8 {
        let network = Network::nth(code);
        assert_eq!(network.code(), code);
        assert_eq!(network_from_spec_name(network.chain_spec_name()).unwrap(), network);
        let bundled = Bundled::nth(code);
        assert_eq!(bundled.code(), code);
        assert_eq!(Bundled::from_str(bundled.path()).unwrap(), bundled);
    }
    assert_eq!(Network::nth(9), Network::Develop);
    assert_eq!(Bundled::nth(9), Bundled::Dao);
    assert_eq!(Network::Staging.chain_spec_name(), "ckb_staging");
    assert_eq!(Bundled::Dao.path(), "Bundled(specs/cells/dao)");
}
