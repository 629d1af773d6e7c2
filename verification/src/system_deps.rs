//! The table of system cells and dependency groups of each network.

use std::collections::HashMap;
use vstd::prelude::*;

use crate::blockchain::{
    lemma_group_cells_resolve, lemma_group_cells_unique, lemma_lower_case_name_names_its_network,
    lemma_path_names_its_resource, Bundled, DepGroupId, Network,
};
use crate::error::RegistryError;
use crate::text::str_eq;

verus! {

broadcast use vstd::std_specs::hash::group_hash_axioms;

/// A hash of 32 bytes, of `ckb_types`. The table carries such hashes and
/// never looks into one.
#[verifier::external_type_specification]
#[verifier::external_body]
pub struct ExH256(ckb_types::H256);

/// `H256`'s `clone`: the copy is the same hash.
pub assume_specification[ <ckb_types::H256 as std::clone::Clone>::clone ](
    hash: &ckb_types::H256,
) -> (copy: ckb_types::H256)
    ensures
        copy == *hash,
;

/// A system cell as the table's text gives it.
pub struct RawSystemCell {
    pub path: String,
    pub tx_hash: ckb_types::H256,
    pub index: usize,
    pub data_hash: ckb_types::H256,
    pub type_hash: Option<ckb_types::H256>,
}

/// A dependency group as the table's text gives it.
pub struct RawDepGroup {
    pub included_cells: Vec<String>,
    pub tx_hash: ckb_types::H256,
    pub index: usize,
}

/// The records of one chain specification as the table's text gives them.
pub struct RawSpecHashes {
    pub genesis: ckb_types::H256,
    pub cellbase: ckb_types::H256,
    pub system_cells: Vec<RawSystemCell>,
    pub dep_groups: Vec<RawDepGroup>,
}

/// Where a bundled resource lies in the genesis block, and its hashes.
#[derive(Debug, Clone)]
pub struct SystemCell {
    tx_hash: ckb_types::H256,
    index: usize,
    data_hash: ckb_types::H256,
    type_hash: Option<ckb_types::H256>,
}

/// Where a dependency group lies in the genesis block.
#[derive(Debug, Clone)]
pub struct DepGroup {
    tx_hash: ckb_types::H256,
    index: usize,
}

/// The records of one network.
#[derive(Debug, Clone)]
pub struct SpecHashes {
    genesis: ckb_types::H256,
    cellbase: ckb_types::H256,
    system_cells: HashMap<u8, SystemCell>,
    dep_groups: HashMap<u8, DepGroup>,
}

/// The records of every network, by network.
pub struct SystemDeps(HashMap<u8, SpecHashes>);

/// What a `SystemCell` holds.
pub struct SystemCellView {
    pub tx_hash: ckb_types::H256,
    pub index: usize,
    pub data_hash: ckb_types::H256,
    pub type_hash: Option<ckb_types::H256>,
}

/// What a `DepGroup` holds.
pub struct DepGroupView {
    pub tx_hash: ckb_types::H256,
    pub index: usize,
}

/// What a `SpecHashes` holds, its records by resource and by group.
pub struct SpecHashesView {
    pub genesis: ckb_types::H256,
    pub cellbase: ckb_types::H256,
    pub system_cells: Map<Bundled, SystemCellView>,
    pub dep_groups: Map<DepGroupId, DepGroupView>,
}

/// A text that names nothing of its category.
pub struct UnknownName {
    pub kind: Seq<char>,
    pub value: Seq<char>,
}

/// Whether `error` reports exactly the unknown name `unknown`.
pub open spec fn reports_unknown(error: RegistryError, unknown: UnknownName) -> bool {
    error matches RegistryError::Unknown(kind, value) && kind@ == unknown.kind && value@
        == unknown.value
}

impl View for SystemCell {
    type V = SystemCellView;

    closed spec fn view(&self) -> SystemCellView {
        SystemCellView {
            tx_hash: self.tx_hash,
            index: self.index,
            data_hash: self.data_hash,
            type_hash: self.type_hash,
        }
    }
}

impl View for DepGroup {
    type V = DepGroupView;

    closed spec fn view(&self) -> DepGroupView {
        DepGroupView { tx_hash: self.tx_hash, index: self.index }
    }
}

/// The records of a map by resource code, as a map by resource.
pub closed spec fn cells_by_resource(cells: Map<u8, SystemCell>) -> Map<Bundled, SystemCellView> {
    Map::new(
        |key: Bundled| cells.contains_key(key.spec_code()),
        |key: Bundled| cells[key.spec_code()]@,
    )
}

/// The records of a map by group code, as a map by group.
pub closed spec fn groups_by_id(groups: Map<u8, DepGroup>) -> Map<DepGroupId, DepGroupView> {
    Map::new(
        |key: DepGroupId| groups.contains_key(key.spec_code()),
        |key: DepGroupId| groups[key.spec_code()]@,
    )
}

impl View for SpecHashes {
    type V = SpecHashesView;

    closed spec fn view(&self) -> SpecHashesView {
        SpecHashesView {
            genesis: self.genesis,
            cellbase: self.cellbase,
            system_cells: cells_by_resource(self.system_cells@),
            dep_groups: groups_by_id(self.dep_groups@),
        }
    }
}

/// The records of a map by network code, as a map by network.
pub closed spec fn hashes_by_network(table: Map<u8, SpecHashes>) -> Map<Network, SpecHashesView> {
    Map::new(
        |key: Network| table.contains_key(key.spec_code()),
        |key: Network| table[key.spec_code()]@,
    )
}

impl View for SystemDeps {
    type V = Map<Network, SpecHashesView>;

    closed spec fn view(&self) -> Map<Network, SpecHashesView> {
        hashes_by_network(self.0@)
    }
}

/// The network name that the name of a chain specification stands for:
/// the four known names are mapped, any other stands for itself.
pub open spec fn spec_network_name(spec_name: Seq<char>) -> Seq<char> {
    if spec_name == "ckb"@ {
        "mainnet"@
    } else if spec_name == "ckb_testnet"@ {
        "testnet"@
    } else if spec_name == "ckb_staging"@ {
        "staging"@
    } else if spec_name == "ckb_dev"@ {
        "develop"@
    } else {
        spec_name
    }
}

/// The network of a chain specification, or the name that is none.
pub open spec fn spec_network_from_spec_name(spec_name: Seq<char>) -> Result<
    Network,
    UnknownName,
> {
    match Network::spec_from_str(spec_network_name(spec_name)) {
        Some(network) => Ok(network),
        None => Err(UnknownName { kind: "network"@, value: spec_network_name(spec_name) }),
    }
}

/// The record that a raw system cell becomes.
pub open spec fn spec_system_cell(raw: RawSystemCell) -> SystemCellView {
    SystemCellView {
        tx_hash: raw.tx_hash,
        index: raw.index,
        data_hash: raw.data_hash,
        type_hash: raw.type_hash,
    }
}

/// The records of the first `n` raw system cells by resource, a later one
/// replacing an earlier one of the same resource; or the first path among
/// them that names no resource.
pub open spec fn spec_system_cells(raws: Seq<RawSystemCell>, n: nat) -> Result<
    Map<Bundled, SystemCellView>,
    UnknownName,
>
    decreases n,
{
    if n == 0 {
        Ok(Map::empty())
    } else {
        match spec_system_cells(raws, (n - 1) as nat) {
            Err(unknown) => Err(unknown),
            Ok(cells) => match Bundled::spec_from_str(raws[n - 1].path@) {
                None => Err(UnknownName { kind: "bundled"@, value: raws[n - 1].path@ }),
                Some(bundled) => Ok(cells.insert(bundled, spec_system_cell(raws[n - 1]))),
            },
        }
    }
}

/// The resources that the first `n` paths name, in their order; or the
/// first path among them that names none.
pub open spec fn spec_included_cells(paths: Seq<String>, n: nat) -> Result<
    Seq<Bundled>,
    UnknownName,
>
    decreases n,
{
    if n == 0 {
        Ok(Seq::empty())
    } else {
        match spec_included_cells(paths, (n - 1) as nat) {
            Err(unknown) => Err(unknown),
            Ok(cells) => match Bundled::spec_from_str(paths[n - 1]@) {
                None => Err(UnknownName { kind: "bundled"@, value: paths[n - 1]@ }),
                Some(bundled) => Ok(cells.push(bundled)),
            },
        }
    }
}

/// The group that a raw dependency group forms, or what is unknown in it:
/// the first path that names no resource, else the list that is no group.
pub open spec fn spec_dep_group_id(raw: RawDepGroup) -> Result<DepGroupId, UnknownName> {
    match spec_included_cells(raw.included_cells@, raw.included_cells@.len()) {
        Err(unknown) => Err(unknown),
        Ok(cells) => match DepGroupId::spec_from_cells(cells) {
            None => Err(
                UnknownName { kind: "dep-group"@, value: Bundled::spec_debug_list(cells) },
            ),
            Some(group) => Ok(group),
        },
    }
}

/// The records of the first `n` raw dependency groups by group, a later
/// one replacing an earlier one of the same group; or what is unknown in
/// the first of them that forms none.
pub open spec fn spec_dep_groups(raws: Seq<RawDepGroup>, n: nat) -> Result<
    Map<DepGroupId, DepGroupView>,
    UnknownName,
>
    decreases n,
{
    if n == 0 {
        Ok(Map::empty())
    } else {
        match spec_dep_groups(raws, (n - 1) as nat) {
            Err(unknown) => Err(unknown),
            Ok(groups) => match spec_dep_group_id(raws[n - 1]) {
                Err(unknown) => Err(unknown),
                Ok(group) => Ok(
                    groups.insert(
                        group,
                        DepGroupView { tx_hash: raws[n - 1].tx_hash, index: raws[n - 1].index },
                    ),
                ),
            },
        }
    }
}

/// The records of one chain specification: its system cells are resolved
/// first, then its dependency groups.
pub open spec fn spec_spec_hashes(raw: RawSpecHashes) -> Result<SpecHashesView, UnknownName> {
    match spec_system_cells(raw.system_cells@, raw.system_cells@.len()) {
        Err(unknown) => Err(unknown),
        Ok(cells) => match spec_dep_groups(raw.dep_groups@, raw.dep_groups@.len()) {
            Err(unknown) => Err(unknown),
            Ok(groups) => Ok(
                SpecHashesView {
                    genesis: raw.genesis,
                    cellbase: raw.cellbase,
                    system_cells: cells,
                    dep_groups: groups,
                },
            ),
        },
    }
}

/// The table of the first `n` entries by network, a later entry replacing
/// an earlier one of the same network; or what is unknown in the first
/// entry that cannot be resolved, its name being looked at before its
/// records.
pub open spec fn spec_table(entries: Seq<(String, RawSpecHashes)>, n: nat) -> Result<
    Map<Network, SpecHashesView>,
    UnknownName,
>
    decreases n,
{
    if n == 0 {
        Ok(Map::empty())
    } else {
        match spec_table(entries, (n - 1) as nat) {
            Err(unknown) => Err(unknown),
            Ok(table) => match spec_network_from_spec_name(entries[n - 1].0@) {
                Err(unknown) => Err(unknown),
                Ok(network) => match spec_spec_hashes(entries[n - 1].1) {
                    Err(unknown) => Err(unknown),
                    Ok(hashes) => Ok(table.insert(network, hashes)),
                },
            },
        }
    }
}

/// Once a prefix of the raw system cells fails, every longer one fails
/// with the same unknown name.
pub proof fn lemma_system_cells_error_stays(raws: Seq<RawSystemCell>, n: nat, m: nat)
    requires
        n <= m,
        spec_system_cells(raws, n) is Err,
    ensures
        spec_system_cells(raws, m) == spec_system_cells(raws, n),
    decreases m,
{
    if n < m {
        lemma_system_cells_error_stays(raws, n, (m - 1) as nat);
    }
}

/// Once a prefix of the paths fails, every longer one fails with the same
/// unknown name.
pub proof fn lemma_included_cells_error_stays(paths: Seq<String>, n: nat, m: nat)
    requires
        n <= m,
        spec_included_cells(paths, n) is Err,
    ensures
        spec_included_cells(paths, m) == spec_included_cells(paths, n),
    decreases m,
{
    if n < m {
        lemma_included_cells_error_stays(paths, n, (m - 1) as nat);
    }
}

/// Once a prefix of the raw dependency groups fails, every longer one
/// fails with the same unknown name.
pub proof fn lemma_dep_groups_error_stays(raws: Seq<RawDepGroup>, n: nat, m: nat)
    requires
        n <= m,
        spec_dep_groups(raws, n) is Err,
    ensures
        spec_dep_groups(raws, m) == spec_dep_groups(raws, n),
    decreases m,
{
    if n < m {
        lemma_dep_groups_error_stays(raws, n, (m - 1) as nat);
    }
}

/// Once a prefix of the entries fails, every longer one fails with the
/// same unknown name.
pub proof fn lemma_table_error_stays(entries: Seq<(String, RawSpecHashes)>, n: nat, m: nat)
    requires
        n <= m,
        spec_table(entries, n) is Err,
    ensures
        spec_table(entries, m) == spec_table(entries, n),
    decreases m,
{
    if n < m {
        lemma_table_error_stays(entries, n, (m - 1) as nat);
    }
}

pub fn network_from_spec_name(spec_name: &str) -> (r: Result<Network, RegistryError>)
    ensures
        match spec_network_from_spec_name(spec_name@) {
            Ok(network) => r == Ok::<Network, RegistryError>(network),
            Err(unknown) => r is Err && reports_unknown(r->Err_0, unknown),
        },
{
    let name: &str = if str_eq(spec_name, "ckb") {
        "mainnet"
    } else if str_eq(spec_name, "ckb_testnet") {
        "testnet"
    } else if str_eq(spec_name, "ckb_staging") {
        "staging"
    } else if str_eq(spec_name, "ckb_dev") {
        "develop"
    } else {
        spec_name
    };
    Network::try_from(name)
}

/// The records by resource of the resources below a code.
pub open spec fn cells_below(cells: Map<Bundled, SystemCellView>, code: u8) -> Map<
    Bundled,
    SystemCellView,
> {
    Map::new(
        |key: Bundled| cells.contains_key(key) && key.spec_code() < code,
        |key: Bundled| cells[key],
    )
}

/// The records by group of the groups below a code.
pub open spec fn groups_below(groups: Map<DepGroupId, DepGroupView>, code: u8) -> Map<
    DepGroupId,
    DepGroupView,
> {
    Map::new(
        |key: DepGroupId| groups.contains_key(key) && key.spec_code() < code,
        |key: DepGroupId| groups[key],
    )
}

/// The records by network of the networks below a code.
pub open spec fn hashes_below(table: Map<Network, SpecHashesView>, code: u8) -> Map<
    Network,
    SpecHashesView,
> {
    Map::new(
        |key: Network| table.contains_key(key) && key.spec_code() < code,
        |key: Network| table[key],
    )
}

/// The name of a network's chain specification stands for that network.
pub proof fn lemma_chain_spec_name_names_its_network(network: Network)
    ensures
        spec_network_from_spec_name(network.spec_chain_spec_name()) == Ok::<Network, UnknownName>(
            network,
        ),
{
    reveal_strlit("ckb");
    reveal_strlit("ckb_testnet");
    reveal_strlit("ckb_staging");
    reveal_strlit("ckb_dev");
    assert("ckb"@.len() == 3);
    assert("ckb_testnet"@.len() == 11);
    assert("ckb_staging"@.len() == 11);
    assert("ckb_dev"@.len() == 7);
    assert("ckb_testnet"@[4] == 't');
    assert("ckb_staging"@[4] == 's');
    lemma_lower_case_name_names_its_network(network);
}

/// What the first `n` raw system cells resolve to depends on them alone.
pub proof fn lemma_system_cells_of_prefix(
    a: Seq<RawSystemCell>,
    b: Seq<RawSystemCell>,
    n: nat,
)
    requires
        n <= a.len(),
        n <= b.len(),
        forall|i: int| 0 <= i < n ==> a[i] == b[i],
    ensures
        spec_system_cells(a, n) == spec_system_cells(b, n),
    decreases n,
{
    if n > 0 {
        lemma_system_cells_of_prefix(a, b, (n - 1) as nat);
    }
}

/// What the first `n` raw dependency groups resolve to depends on them
/// alone.
pub proof fn lemma_dep_groups_of_prefix(a: Seq<RawDepGroup>, b: Seq<RawDepGroup>, n: nat)
    requires
        n <= a.len(),
        n <= b.len(),
        forall|i: int| 0 <= i < n ==> a[i] == b[i],
    ensures
        spec_dep_groups(a, n) == spec_dep_groups(b, n),
    decreases n,
{
    if n > 0 {
        lemma_dep_groups_of_prefix(a, b, (n - 1) as nat);
    }
}

/// What the first `n` entries resolve to depends on them alone.
pub proof fn lemma_table_of_prefix(
    a: Seq<(String, RawSpecHashes)>,
    b: Seq<(String, RawSpecHashes)>,
    n: nat,
)
    requires
        n <= a.len(),
        n <= b.len(),
        forall|i: int| 0 <= i < n ==> a[i] == b[i],
    ensures
        spec_table(a, n) == spec_table(b, n),
    decreases n,
{
    if n > 0 {
        lemma_table_of_prefix(a, b, (n - 1) as nat);
    }
}

/// The group with the given code, or the last one for a larger code.
fn group_nth(code: u8) -> (group: DepGroupId)
    ensures
        code < 2 ==> group.spec_code() == code,
{
    if code == 0 {
        DepGroupId::Secp256k1Blake160
    } else {
        DepGroupId::Secp256k1Blake160MultiSig
    }
}

/// The paths of the two resources of a group, in their order.
fn group_paths(group: DepGroupId) -> (paths: Vec<String>)
    ensures
        spec_included_cells(paths@, paths@.len()) == Ok::<Seq<Bundled>, UnknownName>(
            group.spec_cells(),
        ),
{
    let second = match group {
        DepGroupId::Secp256k1Blake160 => Bundled::Secp256k1Blake160,
        DepGroupId::Secp256k1Blake160MultiSig => Bundled::Secp256k1Blake160MultiSig,
    };
    let mut paths: Vec<String> = Vec::new();
    paths.push(Bundled::Secp256k1Data.path().to_owned());
    paths.push(second.path().to_owned());
    proof {
        lemma_path_names_its_resource(Bundled::Secp256k1Data);
        lemma_path_names_its_resource(second);
        let one = Seq::<Bundled>::empty().push(Bundled::Secp256k1Data);
        assert(spec_included_cells(paths@, 0) == Ok::<Seq<Bundled>, UnknownName>(Seq::empty()));
        assert(spec_included_cells(paths@, 1) == Ok::<Seq<Bundled>, UnknownName>(one));
        assert(spec_included_cells(paths@, 2) == Ok::<Seq<Bundled>, UnknownName>(
            one.push(second),
        ));
        assert(one.push(second) =~= group.spec_cells());
    }
    paths
}

/// Resolves the paths of the included cells, in their order.
fn resolve_included_cells(paths: &Vec<String>) -> (r: Result<Vec<Bundled>, RegistryError>)
    ensures
        match spec_included_cells(paths@, paths@.len()) {
            Ok(cells) => r is Ok && r->Ok_0@ == cells,
            Err(unknown) => r is Err && reports_unknown(r->Err_0, unknown),
        },
{
    let mut cells: Vec<Bundled> = Vec::new();
    let mut i: usize = 0;
    while i < paths.len()
        invariant
            i <= paths@.len(),
            spec_included_cells(paths@, i as nat) == Ok::<Seq<Bundled>, UnknownName>(cells@),
        decreases paths@.len() - i,
    {
        match Bundled::try_from(paths[i].as_str()) {
            Ok(bundled) => {
                cells.push(bundled);
            },
            Err(error) => {
                proof {
                    lemma_included_cells_error_stays(paths@, (i + 1) as nat, paths@.len());
                }
                return Err(error);
            },
        }
        i = i + 1;
    }
    Ok(cells)
}

/// Resolves the raw system cells into records by resource code.
fn resolve_system_cells(raws: &Vec<RawSystemCell>) -> (r: Result<
    HashMap<u8, SystemCell>,
    RegistryError,
>)
    ensures
        match spec_system_cells(raws@, raws@.len()) {
            Ok(cells) => r is Ok && cells_by_resource(r->Ok_0@) == cells,
            Err(unknown) => r is Err && reports_unknown(r->Err_0, unknown),
        },
{
    let mut cells: HashMap<u8, SystemCell> = HashMap::new();
    let mut i: usize = 0;
    assert(cells_by_resource(cells@) =~= Map::<Bundled, SystemCellView>::empty());
    while i < raws.len()
        invariant
            i <= raws@.len(),
            spec_system_cells(raws@, i as nat) == Ok::<Map<Bundled, SystemCellView>, UnknownName>(
                cells_by_resource(cells@),
            ),
        decreases raws@.len() - i,
    {
        let raw = &raws[i];
        match Bundled::try_from(raw.path.as_str()) {
            Ok(bundled) => {
                let type_hash = match &raw.type_hash {
                    Some(hash) => Some(hash.clone()),
                    None => None,
                };
                let cell = SystemCell {
                    tx_hash: raw.tx_hash.clone(),
                    index: raw.index,
                    data_hash: raw.data_hash.clone(),
                    type_hash,
                };
                let ghost before = cells@;
                cells.insert(bundled.code(), cell);
                assert(cells_by_resource(cells@) =~= cells_by_resource(before).insert(
                    bundled,
                    spec_system_cell(*raw),
                ));
            },
            Err(error) => {
                proof {
                    lemma_system_cells_error_stays(raws@, (i + 1) as nat, raws@.len());
                }
                return Err(error);
            },
        }
        i = i + 1;
    }
    Ok(cells)
}

/// Resolves the raw dependency groups into records by group code.
fn resolve_dep_groups(raws: &Vec<RawDepGroup>) -> (r: Result<HashMap<u8, DepGroup>, RegistryError>)
    ensures
        match spec_dep_groups(raws@, raws@.len()) {
            Ok(groups) => r is Ok && groups_by_id(r->Ok_0@) == groups,
            Err(unknown) => r is Err && reports_unknown(r->Err_0, unknown),
        },
{
    let mut groups: HashMap<u8, DepGroup> = HashMap::new();
    let mut i: usize = 0;
    assert(groups_by_id(groups@) =~= Map::<DepGroupId, DepGroupView>::empty());
    while i < raws.len()
        invariant
            i <= raws@.len(),
            spec_dep_groups(raws@, i as nat) == Ok::<Map<DepGroupId, DepGroupView>, UnknownName>(
                groups_by_id(groups@),
            ),
        decreases raws@.len() - i,
    {
        let raw = &raws[i];
        let included = match resolve_included_cells(&raw.included_cells) {
            Ok(cells) => DepGroupId::try_from(cells.as_slice()),
            Err(error) => Err(error),
        };
        match included {
            Ok(group) => {
                let dep_group = DepGroup { tx_hash: raw.tx_hash.clone(), index: raw.index };
                let ghost before = groups@;
                groups.insert(group.code(), dep_group);
                assert(groups_by_id(groups@) =~= groups_by_id(before).insert(
                    group,
                    DepGroupView { tx_hash: raw.tx_hash, index: raw.index },
                ));
            },
            Err(error) => {
                proof {
                    lemma_dep_groups_error_stays(raws@, (i + 1) as nat, raws@.len());
                }
                return Err(error);
            },
        }
        i = i + 1;
    }
    Ok(groups)
}

impl SystemCell {
    pub fn tx_hash(&self) -> (hash: &ckb_types::H256)
        ensures
            *hash == self@.tx_hash,
    {
        &self.tx_hash
    }

    pub fn index(&self) -> (index: usize)
        ensures
            index == self@.index,
    {
        self.index
    }

    pub fn data_hash(&self) -> (hash: &ckb_types::H256)
        ensures
            *hash == self@.data_hash,
    {
        &self.data_hash
    }

    pub fn type_hash(&self) -> (hash: &Option<ckb_types::H256>)
        ensures
            *hash == self@.type_hash,
    {
        &self.type_hash
    }
}

impl DepGroup {
    pub fn tx_hash(&self) -> (hash: &ckb_types::H256)
        ensures
            *hash == self@.tx_hash,
    {
        &self.tx_hash
    }

    pub fn index(&self) -> (index: usize)
        ensures
            index == self@.index,
    {
        self.index
    }
}

/// The record of a resource as a list: of one item where the map has the
/// resource, else empty.
pub open spec fn spec_listed_cell(cells: Map<Bundled, SystemCellView>, key: Bundled) -> Seq<
    (Bundled, SystemCellView),
> {
    if cells.contains_key(key) {
        seq![(key, cells[key])]
    } else {
        Seq::empty()
    }
}

/// Every record of a map by resource, each with its resource, in the
/// order in which the resources are declared.
pub open spec fn spec_listed_cells(cells: Map<Bundled, SystemCellView>) -> Seq<
    (Bundled, SystemCellView),
> {
    spec_listed_cell(cells, Bundled::Secp256k1Blake160) + spec_listed_cell(
        cells,
        Bundled::Secp256k1Blake160MultiSig,
    ) + spec_listed_cell(cells, Bundled::Secp256k1Data) + spec_listed_cell(cells, Bundled::Dao)
}

/// The record of a group as a list: of one item where the map has the
/// group, else empty.
pub open spec fn spec_listed_group(groups: Map<DepGroupId, DepGroupView>, key: DepGroupId) -> Seq<
    (DepGroupId, DepGroupView),
> {
    if groups.contains_key(key) {
        seq![(key, groups[key])]
    } else {
        Seq::empty()
    }
}

/// Every record of a map by group, each with its group, in the order in
/// which the groups are declared.
pub open spec fn spec_listed_groups(groups: Map<DepGroupId, DepGroupView>) -> Seq<
    (DepGroupId, DepGroupView),
> {
    spec_listed_group(groups, DepGroupId::Secp256k1Blake160) + spec_listed_group(
        groups,
        DepGroupId::Secp256k1Blake160MultiSig,
    )
}

/// What a list of records by resource holds.
pub open spec fn cells_view(cells: Seq<(Bundled, &SystemCell)>) -> Seq<(Bundled, SystemCellView)> {
    Seq::new(cells.len(), |i: int| (cells[i].0, cells[i].1@))
}

/// What a list of records by group holds.
pub open spec fn groups_view(groups: Seq<(DepGroupId, &DepGroup)>) -> Seq<
    (DepGroupId, DepGroupView),
> {
    Seq::new(groups.len(), |i: int| (groups[i].0, groups[i].1@))
}

impl SpecHashes {
    /// Resolves the records of one chain specification.
    pub fn from_raw(raw: &RawSpecHashes) -> (r: Result<SpecHashes, RegistryError>)
        ensures
            match spec_spec_hashes(*raw) {
                Ok(hashes) => r is Ok && r->Ok_0@ == hashes,
                Err(unknown) => r is Err && reports_unknown(r->Err_0, unknown),
            },
    {
        let system_cells = match resolve_system_cells(&raw.system_cells) {
            Ok(cells) => cells,
            Err(error) => {
                return Err(error);
            },
        };
        let dep_groups = match resolve_dep_groups(&raw.dep_groups) {
            Ok(groups) => groups,
            Err(error) => {
                return Err(error);
            },
        };
        Ok(
            SpecHashes {
                genesis: raw.genesis.clone(),
                cellbase: raw.cellbase.clone(),
                system_cells,
                dep_groups,
            },
        )
    }

    /// Writes the records back as raw records: each resource with its
    /// path, each group with the paths of its two resources. Resolving
    /// them gives these records again.
    pub fn to_raw(&self) -> (raw: RawSpecHashes)
        ensures
            spec_spec_hashes(raw) == Ok::<SpecHashesView, UnknownName>(self@),
    {
        let ghost cells = self@.system_cells;
        let ghost groups = self@.dep_groups;
        let mut system_cells: Vec<RawSystemCell> = Vec::new();
        let mut code: u8 = 0;
        assert(cells_below(cells, 0) =~= Map::<Bundled, SystemCellView>::empty());
        while code < 4
            invariant
                code <= 4,
                cells == self@.system_cells,
                spec_system_cells(system_cells@, system_cells@.len()) == Ok::<
                    Map<Bundled, SystemCellView>,
                    UnknownName,
                >(cells_below(cells, code)),
            decreases 4 - code,
        {
            let key = Bundled::nth(code);
            match self.system_cell(key) {
                Some(cell) => {
                    let ghost before = system_cells@;
                    let type_hash = match &cell.type_hash {
                        Some(hash) => Some(hash.clone()),
                        None => None,
                    };
                    system_cells.push(
                        RawSystemCell {
                            path: key.path().to_owned(),
                            tx_hash: cell.tx_hash.clone(),
                            index: cell.index,
                            data_hash: cell.data_hash.clone(),
                            type_hash,
                        },
                    );
                    proof {
                        lemma_path_names_its_resource(key);
                        lemma_system_cells_of_prefix(before, system_cells@, before.len());
                        assert(cells_below(cells, code).insert(key, cell@) =~= cells_below(
                            cells,
                            (code + 1) as u8,
                        ));
                    }
                },
                None => {
                    assert(cells_below(cells, code) =~= cells_below(cells, (code + 1) as u8));
                },
            }
            code = code + 1;
        }
        assert(cells_below(cells, 4) =~= cells);
        let mut dep_groups: Vec<RawDepGroup> = Vec::new();
        let mut code: u8 = 0;
        assert(groups_below(groups, 0) =~= Map::<DepGroupId, DepGroupView>::empty());
        while code < 2
            invariant
                code <= 2,
                groups == self@.dep_groups,
                spec_dep_groups(dep_groups@, dep_groups@.len()) == Ok::<
                    Map<DepGroupId, DepGroupView>,
                    UnknownName,
                >(groups_below(groups, code)),
            decreases 2 - code,
        {
            let key = group_nth(code);
            match self.dep_group(key) {
                Some(group) => {
                    let ghost before = dep_groups@;
                    dep_groups.push(
                        RawDepGroup {
                            included_cells: group_paths(key),
                            tx_hash: group.tx_hash.clone(),
                            index: group.index,
                        },
                    );
                    proof {
                        lemma_group_cells_resolve(key);
                        lemma_dep_groups_of_prefix(before, dep_groups@, before.len());
                        assert(groups_below(groups, code).insert(key, group@) =~= groups_below(
                            groups,
                            (code + 1) as u8,
                        ));
                    }
                },
                None => {
                    assert(groups_below(groups, code) =~= groups_below(groups, (code + 1) as u8));
                },
            }
            code = code + 1;
        }
        assert(groups_below(groups, 2) =~= groups);
        RawSpecHashes {
            genesis: self.genesis.clone(),
            cellbase: self.cellbase.clone(),
            system_cells,
            dep_groups,
        }
    }

    pub fn genesis(&self) -> (hash: &ckb_types::H256)
        ensures
            *hash == self@.genesis,
    {
        &self.genesis
    }

    pub fn cellbase(&self) -> (hash: &ckb_types::H256)
        ensures
            *hash == self@.cellbase,
    {
        &self.cellbase
    }

    /// Every record of a resource that the network has, each with its
    /// resource.
    pub fn system_cells(&self) -> (cells: Vec<(Bundled, &SystemCell)>)
        ensures
            cells_view(cells@) == spec_listed_cells(self@.system_cells),
    {
        let ghost map = self@.system_cells;
        let mut cells: Vec<(Bundled, &SystemCell)> = Vec::new();
        assert(cells_view(cells@) =~= Seq::<(Bundled, SystemCellView)>::empty());
        match self.system_cell(Bundled::Secp256k1Blake160) {
            Some(cell) => {
                cells.push((Bundled::Secp256k1Blake160, cell));
            },
            None => {},
        }
        let ghost first = spec_listed_cell(map, Bundled::Secp256k1Blake160);
        assert(cells_view(cells@) =~= first);
        match self.system_cell(Bundled::Secp256k1Blake160MultiSig) {
            Some(cell) => {
                cells.push((Bundled::Secp256k1Blake160MultiSig, cell));
            },
            None => {},
        }
        let ghost second = first + spec_listed_cell(map, Bundled::Secp256k1Blake160MultiSig);
        assert(cells_view(cells@) =~= second);
        match self.system_cell(Bundled::Secp256k1Data) {
            Some(cell) => {
                cells.push((Bundled::Secp256k1Data, cell));
            },
            None => {},
        }
        let ghost third = second + spec_listed_cell(map, Bundled::Secp256k1Data);
        assert(cells_view(cells@) =~= third);
        match self.system_cell(Bundled::Dao) {
            Some(cell) => {
                cells.push((Bundled::Dao, cell));
            },
            None => {},
        }
        assert(cells_view(cells@) =~= third + spec_listed_cell(map, Bundled::Dao));
        cells
    }

    /// Every record of a group that the network has, each with its group.
    pub fn dep_groups(&self) -> (groups: Vec<(DepGroupId, &DepGroup)>)
        ensures
            groups_view(groups@) == spec_listed_groups(self@.dep_groups),
    {
        let ghost map = self@.dep_groups;
        let mut groups: Vec<(DepGroupId, &DepGroup)> = Vec::new();
        assert(groups_view(groups@) =~= Seq::<(DepGroupId, DepGroupView)>::empty());
        match self.dep_group(DepGroupId::Secp256k1Blake160) {
            Some(group) => {
                groups.push((DepGroupId::Secp256k1Blake160, group));
            },
            None => {},
        }
        let ghost first = spec_listed_group(map, DepGroupId::Secp256k1Blake160);
        assert(groups_view(groups@) =~= first);
        match self.dep_group(DepGroupId::Secp256k1Blake160MultiSig) {
            Some(group) => {
                groups.push((DepGroupId::Secp256k1Blake160MultiSig, group));
            },
            None => {},
        }
        assert(groups_view(groups@) =~= first + spec_listed_group(
            map,
            DepGroupId::Secp256k1Blake160MultiSig,
        ));
        groups
    }

    /// The record of a resource, if the network has one.
    pub fn system_cell(&self, key: Bundled) -> (cell: Option<&SystemCell>)
        ensures
            match cell {
                Some(cell) => self@.system_cells.contains_key(key) && cell@
                    == self@.system_cells[key],
                None => !self@.system_cells.contains_key(key),
            },
    {
        self.system_cells.get(&key.code())
    }

    /// The record of a group, if the network has one.
    pub fn dep_group(&self, key: DepGroupId) -> (group: Option<&DepGroup>)
        ensures
            match group {
                Some(group) => self@.dep_groups.contains_key(key) && group@
                    == self@.dep_groups[key],
                None => !self@.dep_groups.contains_key(key),
            },
    {
        self.dep_groups.get(&key.code())
    }
}

impl SystemDeps {
    /// Builds the table from the entries of the table's text, each the
    /// name of a chain specification with its records. It fails on the
    /// first entry that holds an unknown name.
    pub fn initialize(entries: &Vec<(String, RawSpecHashes)>) -> (r: Result<
        SystemDeps,
        RegistryError,
    >)
        ensures
            match spec_table(entries@, entries@.len()) {
                Ok(table) => r is Ok && r->Ok_0@ == table,
                Err(unknown) => r is Err && reports_unknown(r->Err_0, unknown),
            },
    {
        let mut table: HashMap<u8, SpecHashes> = HashMap::new();
        let mut i: usize = 0;
        assert(hashes_by_network(table@) =~= Map::<Network, SpecHashesView>::empty());
        while i < entries.len()
            invariant
                i <= entries@.len(),
                spec_table(entries@, i as nat) == Ok::<Map<Network, SpecHashesView>, UnknownName>(
                    hashes_by_network(table@),
                ),
            decreases entries@.len() - i,
        {
            let entry = &entries[i];
            let resolved = match network_from_spec_name(entry.0.as_str()) {
                Ok(network) => match SpecHashes::from_raw(&entry.1) {
                    Ok(hashes) => Ok((network, hashes)),
                    Err(error) => Err(error),
                },
                Err(error) => Err(error),
            };
            match resolved {
                Ok((network, hashes)) => {
                    let ghost before = table@;
                    let ghost view = hashes@;
                    table.insert(network.code(), hashes);
                    assert(hashes_by_network(table@) =~= hashes_by_network(before).insert(
                        network,
                        view,
                    ));
                },
                Err(error) => {
                    proof {
                        lemma_table_error_stays(entries@, (i + 1) as nat, entries@.len());
                    }
                    return Err(error);
                },
            }
            i = i + 1;
        }
        Ok(SystemDeps(table))
    }

    /// Writes the table back as entries, each network under the name of
    /// its chain specification. Building a table from them gives this
    /// table again.
    pub fn to_entries(&self) -> (entries: Vec<(String, RawSpecHashes)>)
        ensures
            spec_table(entries@, entries@.len()) == Ok::<Map<Network, SpecHashesView>, UnknownName>(
                self@,
            ),
    {
        let ghost table = self@;
        let mut entries: Vec<(String, RawSpecHashes)> = Vec::new();
        let mut code: u8 = 0;
        assert(hashes_below(table, 0) =~= Map::<Network, SpecHashesView>::empty());
        while code < 4
            invariant
                code <= 4,
                table == self@,
                spec_table(entries@, entries@.len()) == Ok::<
                    Map<Network, SpecHashesView>,
                    UnknownName,
                >(hashes_below(table, code)),
            decreases 4 - code,
        {
            let network = Network::nth(code);
            match self.spec_hashes(network) {
                Some(hashes) => {
                    let ghost before = entries@;
                    entries.push((network.chain_spec_name().to_owned(), hashes.to_raw()));
                    proof {
                        lemma_chain_spec_name_names_its_network(network);
                        lemma_table_of_prefix(before, entries@, before.len());
                        assert(hashes_below(table, code).insert(network, hashes@) =~= hashes_below(
                            table,
                            (code + 1) as u8,
                        ));
                    }
                },
                None => {
                    assert(hashes_below(table, code) =~= hashes_below(table, (code + 1) as u8));
                },
            }
            code = code + 1;
        }
        assert(hashes_below(table, 4) =~= table);
        entries
    }

    /// The records of a network, if the table has them.
    pub fn spec_hashes(&self, network: Network) -> (hashes: Option<&SpecHashes>)
        ensures
            match hashes {
                Some(hashes) => self@.contains_key(network) && hashes@ == self@[network],
                None => !self@.contains_key(network),
            },
    {
        self.0.get(&network.code())
    }

    pub fn lookup_system_cell(&self, network: Network, key: Bundled) -> (r: Result<
        &SystemCell,
        RegistryError,
    >)
        ensures
            match r {
                Ok(cell) => self@.contains_key(network) && self@[network].system_cells.contains_key(
                    key,
                ) && cell@ == self@[network].system_cells[key],
                Err(error) => !(self@.contains_key(network)
                    && self@[network].system_cells.contains_key(key)) && error
                    == RegistryError::UnknownSystemCell(network, key),
            },
    {
        match self.spec_hashes(network) {
            Some(hashes) => match hashes.system_cell(key) {
                Some(cell) => Ok(cell),
                None => Err(RegistryError::UnknownSystemCell(network, key)),
            },
            None => Err(RegistryError::UnknownSystemCell(network, key)),
        }
    }

    pub fn lookup_dep_group(&self, network: Network, key: DepGroupId) -> (r: Result<
        &DepGroup,
        RegistryError,
    >)
        ensures
            match r {
                Ok(group) => self@.contains_key(network) && self@[network].dep_groups.contains_key(
                    key,
                ) && group@ == self@[network].dep_groups[key],
                Err(error) => !(self@.contains_key(network)
                    && self@[network].dep_groups.contains_key(key)) && error
                    == RegistryError::UnknownDepGroup(network, key),
            },
    {
        match self.spec_hashes(network) {
            Some(hashes) => match hashes.dep_group(key) {
                Some(group) => Ok(group),
                None => Err(RegistryError::UnknownDepGroup(network, key)),
            },
            None => Err(RegistryError::UnknownDepGroup(network, key)),
        }
    }
}


/// Whether every raw system cell has a positive index and no two of them
/// have the same.
pub open spec fn indexes_positive_and_distinct(raws: Seq<RawSystemCell>) -> bool {
    &&& forall|i: int| 0 <= i < raws.len() ==> (#[trigger] raws[i]).index > 0
    &&& forall|i: int, j: int|
        0 <= i < j < raws.len() ==> (#[trigger] raws[i]).index != (#[trigger] raws[j]).index
}

/// Every record by resource comes from one of the raw system cells: one
/// whose path names the resource. The lemma gives that cell's place.
pub proof fn lemma_system_cell_origin(raws: Seq<RawSystemCell>, n: nat, key: Bundled) -> (i: int)
    requires
        n <= raws.len(),
        spec_system_cells(raws, n) is Ok,
        spec_system_cells(raws, n)->Ok_0.contains_key(key),
    ensures
        0 <= i < n,
        Bundled::spec_from_str(raws[i].path@) == Some(key),
        spec_system_cells(raws, n)->Ok_0[key] == spec_system_cell(raws[i]),
    decreases n,
{
    if n == 0 {
        0
    } else if Bundled::spec_from_str(raws[n - 1].path@) == Some(key) {
        n - 1
    } else {
        lemma_system_cell_origin(raws, (n - 1) as nat, key)
    }
}

/// Where the raw system cells have positive indexes, no two the same, the
/// record of every resource has a positive index, and the records of two
/// resources have different indexes.
pub proof fn lemma_cell_indexes_positive_and_distinct(
    raws: Seq<RawSystemCell>,
    a: Bundled,
    b: Bundled,
)
    requires
        indexes_positive_and_distinct(raws),
        spec_system_cells(raws, raws.len()) is Ok,
        spec_system_cells(raws, raws.len())->Ok_0.contains_key(a),
        spec_system_cells(raws, raws.len())->Ok_0.contains_key(b),
    ensures
        spec_system_cells(raws, raws.len())->Ok_0[a].index > 0,
        a != b ==> spec_system_cells(raws, raws.len())->Ok_0[a].index != spec_system_cells(
            raws,
            raws.len(),
        )->Ok_0[b].index,
{
    let i = lemma_system_cell_origin(raws, raws.len(), a);
    let j = lemma_system_cell_origin(raws, raws.len(), b);
    if a != b {
        if i < j {
            assert(raws[i].index != raws[j].index);
        } else {
            assert(raws[j].index != raws[i].index);
        }
    }
}

/// The records of every network in the table are those of one of the
/// entries: one whose name stands for the network. The lemma gives that
/// entry's place.
pub proof fn lemma_table_origin(
    entries: Seq<(String, RawSpecHashes)>,
    n: nat,
    network: Network,
) -> (j: int)
    requires
        n <= entries.len(),
        spec_table(entries, n) is Ok,
        spec_table(entries, n)->Ok_0.contains_key(network),
    ensures
        0 <= j < n,
        spec_network_from_spec_name(entries[j].0@) == Ok::<Network, UnknownName>(network),
        spec_spec_hashes(entries[j].1) == Ok::<SpecHashesView, UnknownName>(
            spec_table(entries, n)->Ok_0[network],
        ),
    decreases n,
{
    if n == 0 {
        0
    } else if spec_network_from_spec_name(entries[n - 1].0@) == Ok::<Network, UnknownName>(
        network,
    ) {
        n - 1
    } else {
        lemma_table_origin(entries, (n - 1) as nat, network)
    }
}

/// Where the system cells of every entry have positive indexes, no two
/// the same within an entry, every record that a lookup in the table
/// finds has a positive index, and within one network the records of two
/// resources have different indexes.
pub proof fn lemma_table_indexes_positive_and_distinct(
    entries: Seq<(String, RawSpecHashes)>,
    network: Network,
    a: Bundled,
    b: Bundled,
)
    requires
        forall|j: int|
            0 <= j < entries.len() ==> indexes_positive_and_distinct(
                (#[trigger] entries[j]).1.system_cells@,
            ),
        spec_table(entries, entries.len()) is Ok,
        spec_table(entries, entries.len())->Ok_0.contains_key(network),
        spec_table(entries, entries.len())->Ok_0[network].system_cells.contains_key(a),
        spec_table(entries, entries.len())->Ok_0[network].system_cells.contains_key(b),
    ensures
        spec_table(entries, entries.len())->Ok_0[network].system_cells[a].index > 0,
        a != b ==> spec_table(entries, entries.len())->Ok_0[network].system_cells[a].index
            != spec_table(entries, entries.len())->Ok_0[network].system_cells[b].index,
{
    let j = lemma_table_origin(entries, entries.len(), network);
    assert(indexes_positive_and_distinct(entries[j].1.system_cells@));
    lemma_cell_indexes_positive_and_distinct(entries[j].1.system_cells@, a, b);
}

/// Every raw system cell of a list that loads has a record under its
/// resource; and the record is that of the cell itself, unless a later
/// cell of the list names the same resource.
pub proof fn lemma_system_cell_row_is_record(raws: Seq<RawSystemCell>, n: nat, i: int)
    requires
        0 <= i < n <= raws.len(),
        spec_system_cells(raws, n) is Ok,
    ensures
        Bundled::spec_from_str(raws[i].path@) is Some,
        spec_system_cells(raws, n)->Ok_0.contains_key(
            Bundled::spec_from_str(raws[i].path@)->Some_0,
        ),
        (forall|j: int|
            i < j < n ==> Bundled::spec_from_str(#[trigger] raws[j].path@)
                != Bundled::spec_from_str(raws[i].path@)) ==> spec_system_cells(
            raws,
            n,
        )->Ok_0[Bundled::spec_from_str(raws[i].path@)->Some_0] == spec_system_cell(raws[i]),
    decreases n,
{
    if i < n - 1 {
        lemma_system_cell_row_is_record(raws, (n - 1) as nat, i);
    }
}

/// Every entry of a list that loads has the records of its network in
/// the table; and they are the records of the entry itself, unless a
/// later entry of the list stands for the same network.
pub proof fn lemma_table_row_is_record(entries: Seq<(String, RawSpecHashes)>, n: nat, i: int)
    requires
        0 <= i < n <= entries.len(),
        spec_table(entries, n) is Ok,
    ensures
        spec_network_from_spec_name(entries[i].0@) is Ok,
        spec_spec_hashes(entries[i].1) is Ok,
        spec_table(entries, n)->Ok_0.contains_key(
            spec_network_from_spec_name(entries[i].0@)->Ok_0,
        ),
        (forall|j: int|
            i < j < n ==> spec_network_from_spec_name(#[trigger] entries[j].0@)
                != spec_network_from_spec_name(entries[i].0@)) ==> spec_table(
            entries,
            n,
        )->Ok_0[spec_network_from_spec_name(entries[i].0@)->Ok_0] == spec_spec_hashes(
            entries[i].1,
        )->Ok_0,
    decreases n,
{
    if i < n - 1 {
        lemma_table_row_is_record(entries, (n - 1) as nat, i);
    }
}

/// Where an entry of a list that loads stands for a network and one of
/// its raw system cells names a resource, the table has a record of that
/// resource on that network: a lookup of the pair succeeds.
pub proof fn lemma_listed_cell_is_found(
    entries: Seq<(String, RawSpecHashes)>,
    i: int,
    k: int,
    network: Network,
    key: Bundled,
)
    requires
        0 <= i < entries.len(),
        0 <= k < entries[i].1.system_cells@.len(),
        spec_table(entries, entries.len()) is Ok,
        spec_network_from_spec_name(entries[i].0@) == Ok::<Network, UnknownName>(network),
        Bundled::spec_from_str(entries[i].1.system_cells@[k].path@) == Some(key),
        forall|j: int|
            i < j < entries.len() ==> spec_network_from_spec_name(#[trigger] entries[j].0@)
                != spec_network_from_spec_name(entries[i].0@),
    ensures
        spec_table(entries, entries.len())->Ok_0.contains_key(network),
        spec_table(entries, entries.len())->Ok_0[network].system_cells.contains_key(key),
{
    lemma_table_row_is_record(entries, entries.len(), i);
    let raws = entries[i].1.system_cells@;
    lemma_system_cell_row_is_record(raws, raws.len(), k);
}

/// The paths of a raw dependency group that forms a group resolve to that
/// group's own ordered pair of resources, whenever they are resolved.
pub proof fn lemma_dep_group_cells_are_its_pair(raw: RawDepGroup, group: DepGroupId)
    requires
        spec_dep_group_id(raw) == Ok::<DepGroupId, UnknownName>(group),
    ensures
        spec_included_cells(raw.included_cells@, raw.included_cells@.len()) == Ok::<
            Seq<Bundled>,
            UnknownName,
        >(group.spec_cells()),
{
    let cells = spec_included_cells(raw.included_cells@, raw.included_cells@.len())->Ok_0;
    lemma_group_cells_unique(cells, group);
}

/// Two tables built from the same entries hold the same records.
pub proof fn lemma_load_is_repeatable(
    entries: Seq<(String, RawSpecHashes)>,
    first: SystemDeps,
    second: SystemDeps,
)
    requires
        spec_table(entries, entries.len()) == Ok::<Map<Network, SpecHashesView>, UnknownName>(
            first@,
        ),
        spec_table(entries, entries.len()) == Ok::<Map<Network, SpecHashesView>, UnknownName>(
            second@,
        ),
    ensures
        first@ == second@,
{
}


} // verus!
