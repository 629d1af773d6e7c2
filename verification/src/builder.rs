//! Building the raw records of a chain specification from its genesis
//! block: the system cells lie in the outputs of the cellbase after the
//! first, the dependency groups in the outputs of the transaction that
//! follows it.

use vstd::prelude::*;

use crate::system_deps::{
    indexes_positive_and_distinct, RawDepGroup, RawSpecHashes, RawSystemCell,
};

verus! {

/// The hashes of one output of the cellbase: of its data, and of its type
/// script if it has one.
pub struct OutputHashes {
    pub data_hash: ckb_types::H256,
    pub type_hash: Option<ckb_types::H256>,
}

/// `H256`'s `==`: whether the two are the same hash.
#[verifier::external_body]
fn same_hash(a: &ckb_types::H256, b: &ckb_types::H256) -> (same: bool)
    ensures
        same == (*a == *b),
{
    a == b
}

/// How many system cells a cellbase with `outputs` outputs gives for
/// `paths` configured resources: its first output is none of them.
pub open spec fn spec_system_cell_count(paths: nat, outputs: nat) -> nat {
    if outputs == 0 {
        0
    } else if paths <= outputs - 1 {
        paths
    } else {
        (outputs - 1) as nat
    }
}

/// Whether `cell` is the raw system cell of the resource at place `k`:
/// it has the resource's path, the hash of the cellbase, the index
/// `k + 1` and the hashes of the output at that index.
pub open spec fn is_system_cell_at(
    cell: RawSystemCell,
    paths: Seq<String>,
    tx_hash: ckb_types::H256,
    outputs: Seq<OutputHashes>,
    k: int,
) -> bool {
    &&& cell.path@ == paths[k]@
    &&& cell.tx_hash == tx_hash
    &&& cell.index == k + 1
    &&& cell.data_hash == outputs[k + 1].data_hash
    &&& cell.type_hash == outputs[k + 1].type_hash
}

/// Whether `group` is the raw dependency group at place `k`: it has the
/// paths of the group's files, the hash of the transaction and the index
/// `k`.
pub open spec fn is_dep_group_at(
    group: RawDepGroup,
    files: Seq<Vec<String>>,
    tx_hash: ckb_types::H256,
    k: int,
) -> bool {
    &&& group.included_cells@.len() == files[k]@.len()
    &&& forall|i: int|
        0 <= i < files[k]@.len() ==> (#[trigger] group.included_cells@[i])@ == files[k]@[i]@
    &&& group.tx_hash == tx_hash
    &&& group.index == k
}

/// Whether a declared genesis hash, if there is one, is the computed one.
pub fn genesis_hash_matches(
    declared: &Option<ckb_types::H256>,
    computed: &ckb_types::H256,
) -> (matches: bool)
    ensures
        matches == (*declared is None || *declared == Some(*computed)),
{
    match declared {
        Some(hash) => same_hash(hash, computed),
        None => true,
    }
}

/// Copies a list of strings.
fn copy_strings(strings: &Vec<String>) -> (copy: Vec<String>)
    ensures
        copy@.len() == strings@.len(),
        forall|i: int| 0 <= i < strings@.len() ==> (#[trigger] copy@[i])@ == strings@[i]@,
{
    let mut copy: Vec<String> = Vec::new();
    let mut i: usize = 0;
    while i < strings.len()
        invariant
            i <= strings@.len(),
            copy@.len() == i,
            forall|j: int| 0 <= j < i ==> (#[trigger] copy@[j])@ == strings@[j]@,
        decreases strings@.len() - i,
    {
        copy.push(strings[i].clone());
        i = i + 1;
    }
    copy
}

/// The raw system cells of the configured resources: the resource at
/// place `k` lies in the output `k + 1` of the cellbase, as far as there
/// are both resources and outputs.
pub fn system_cells_of_cellbase(
    paths: &Vec<String>,
    tx_hash: &ckb_types::H256,
    outputs: &Vec<OutputHashes>,
) -> (cells: Vec<RawSystemCell>)
    ensures
        cells@.len() == spec_system_cell_count(paths@.len(), outputs@.len()),
        forall|k: int|
            0 <= k < cells@.len() ==> is_system_cell_at(
                #[trigger] cells@[k],
                paths@,
                *tx_hash,
                outputs@,
                k,
            ),
        indexes_positive_and_distinct(cells@),
{
    let mut cells: Vec<RawSystemCell> = Vec::new();
    let mut k: usize = 0;
    while k < paths.len() && k + 1 < outputs.len()
        invariant
            k <= paths@.len(),
            k == 0 || k < outputs@.len(),
            cells@.len() == k,
            forall|j: int|
                0 <= j < k ==> is_system_cell_at(
                    #[trigger] cells@[j],
                    paths@,
                    *tx_hash,
                    outputs@,
                    j,
                ),
        decreases paths@.len() - k,
    {
        let output = &outputs[k + 1];
        let type_hash = match &output.type_hash {
            Some(hash) => Some(hash.clone()),
            None => None,
        };
        cells.push(
            RawSystemCell {
                path: paths[k].clone(),
                tx_hash: tx_hash.clone(),
                index: k + 1,
                data_hash: output.data_hash.clone(),
                type_hash,
            },
        );
        k = k + 1;
    }
    cells
}

/// The raw dependency groups of the configured groups: the group at
/// place `k` lies in the output `k` of the transaction.
pub fn dep_groups_of_transaction(files: &Vec<Vec<String>>, tx_hash: &ckb_types::H256) -> (groups:
    Vec<RawDepGroup>)
    ensures
        groups@.len() == files@.len(),
        forall|k: int|
            0 <= k < groups@.len() ==> is_dep_group_at(#[trigger] groups@[k], files@, *tx_hash, k),
{
    let mut groups: Vec<RawDepGroup> = Vec::new();
    let mut k: usize = 0;
    while k < files.len()
        invariant
            k <= files@.len(),
            groups@.len() == k,
            forall|j: int|
                0 <= j < k ==> is_dep_group_at(#[trigger] groups@[j], files@, *tx_hash, j),
        decreases files@.len() - k,
    {
        groups.push(
            RawDepGroup {
                included_cells: copy_strings(&files[k]),
                tx_hash: tx_hash.clone(),
                index: k,
            },
        );
        k = k + 1;
    }
    groups
}

/// The raw records of a chain specification: its two hashes, the system
/// cells of its cellbase and the dependency groups of the transaction
/// that follows it.
pub fn raw_spec_hashes(
    genesis: ckb_types::H256,
    cellbase: ckb_types::H256,
    paths: &Vec<String>,
    outputs: &Vec<OutputHashes>,
    files: &Vec<Vec<String>>,
    dep_group_tx_hash: &ckb_types::H256,
) -> (raw: RawSpecHashes)
    ensures
        raw.genesis == genesis,
        raw.cellbase == cellbase,
        raw.system_cells@.len() == spec_system_cell_count(paths@.len(), outputs@.len()),
        forall|k: int|
            0 <= k < raw.system_cells@.len() ==> is_system_cell_at(
                #[trigger] raw.system_cells@[k],
                paths@,
                cellbase,
                outputs@,
                k,
            ),
        indexes_positive_and_distinct(raw.system_cells@),
        raw.dep_groups@.len() == files@.len(),
        forall|k: int|
            0 <= k < raw.dep_groups@.len() ==> is_dep_group_at(
                #[trigger] raw.dep_groups@[k],
                files@,
                *dep_group_tx_hash,
                k,
            ),
{
    let system_cells = system_cells_of_cellbase(paths, &cellbase, outputs);
    let dep_groups = dep_groups_of_transaction(files, dep_group_tx_hash);
    RawSpecHashes { genesis, cellbase, system_cells, dep_groups }
}

} // verus!
