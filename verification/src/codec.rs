//! The block and transaction structures of `ckb_types`, and what this
//! library asks of them: to build one, to read a part of one, and to
//! measure one. Nothing in this file is proved; each contract states what
//! the source of `ckb_types` shows.

use ckb_types::bytes::Bytes;
use ckb_types::packed;
use ckb_types::prelude::{Builder, Entity, Pack, PackVec};
use vstd::prelude::*;

verus! {

/// A serialized block.
#[verifier::external_type_specification]
#[verifier::external_body]
pub struct ExBlock(ckb_types::packed::Block);

/// A serialized block header.
#[verifier::external_type_specification]
#[verifier::external_body]
pub struct ExHeader(ckb_types::packed::Header);

/// A serialized transaction.
#[verifier::external_type_specification]
#[verifier::external_body]
pub struct ExTransaction(ckb_types::packed::Transaction);

/// A serialized cell dependency.
#[verifier::external_type_specification]
#[verifier::external_body]
pub struct ExCellDep(ckb_types::packed::CellDep);

/// A serialized cell input.
#[verifier::external_type_specification]
#[verifier::external_body]
pub struct ExCellInput(ckb_types::packed::CellInput);

/// A serialized cell output.
#[verifier::external_type_specification]
#[verifier::external_body]
pub struct ExCellOutput(ckb_types::packed::CellOutput);

/// A serialized byte string.
#[verifier::external_type_specification]
#[verifier::external_body]
pub struct ExPackedBytes(ckb_types::packed::Bytes);

/// A serialized uncle block.
#[verifier::external_type_specification]
#[verifier::external_body]
pub struct ExUncleBlock(ckb_types::packed::UncleBlock);

/// A serialized short identifier of a proposed transaction.
#[verifier::external_type_specification]
#[verifier::external_body]
pub struct ExProposalShortId(ckb_types::packed::ProposalShortId);

/// The header that a block holds.
pub uninterp spec fn block_header(block: packed::Block) -> packed::Header;

/// The uncles that a block holds, in their order.
pub uninterp spec fn block_uncles(block: packed::Block) -> Seq<packed::UncleBlock>;

/// The proposals that a block holds, in their order.
pub uninterp spec fn block_proposals(block: packed::Block) -> Seq<packed::ProposalShortId>;

/// The cell dependencies that a transaction holds, in their order.
pub uninterp spec fn transaction_cell_deps(tx: packed::Transaction) -> Seq<packed::CellDep>;

/// The transactions that a block holds, in their order.
pub uninterp spec fn block_transactions(block: packed::Block) -> Seq<packed::Transaction>;

/// The inputs that a transaction holds, in their order.
pub uninterp spec fn transaction_inputs(tx: packed::Transaction) -> Seq<packed::CellInput>;

/// The outputs that a transaction holds, in their order.
pub uninterp spec fn transaction_outputs(tx: packed::Transaction) -> Seq<packed::CellOutput>;

/// The output data that a transaction holds, in their order.
pub uninterp spec fn transaction_outputs_data(tx: packed::Transaction) -> Seq<packed::Bytes>;

/// The witnesses that a transaction holds, in their order.
pub uninterp spec fn transaction_witnesses(tx: packed::Transaction) -> Seq<packed::Bytes>;

/// The serialized size of a block, the proposals of its uncles left out.
pub uninterp spec fn block_size(block: packed::Block) -> usize;

/// The serialized size that a transaction takes in a block.
pub uninterp spec fn transaction_size(tx: packed::Transaction) -> usize;

/// The byte string that packing the given bytes gives.
pub uninterp spec fn packed_bytes(content: Seq<u8>) -> packed::Bytes;

/// The header whose `dao` field holds the 32 bytes `dao` and nothing else
/// set.
pub uninterp spec fn header_of_dao(dao: Seq<u8>) -> packed::Header;

/// The cell dependency of the given type and nothing else set.
pub uninterp spec fn cell_dep_of_type(dep_type: u8) -> packed::CellDep;

/// The cell input with the given `since` and nothing else set.
pub uninterp spec fn cell_input_of_since(since: u64) -> packed::CellInput;

/// The witness that holds the bytes of a cellbase witness whose message
/// is `message` and nothing else set.
pub uninterp spec fn witness_of_cellbase(message: Seq<u8>) -> packed::Bytes;

/// The transaction built from exactly these parts and nothing else set.
pub uninterp spec fn transaction_of(
    cell_deps: Seq<packed::CellDep>,
    inputs: Seq<packed::CellInput>,
    outputs: Seq<packed::CellOutput>,
    outputs_data: Seq<packed::Bytes>,
    witnesses: Seq<packed::Bytes>,
) -> packed::Transaction;

/// The block built from exactly this header and these transactions, with
/// no uncle and no proposal.
pub uninterp spec fn block_of(
    header: packed::Header,
    txs: Seq<packed::Transaction>,
) -> packed::Block;

/// The cell output whose lock script has the arguments `args` and
/// nothing else set.
pub uninterp spec fn locked_output(args: Seq<u8>) -> packed::CellOutput;

/// The witness that holds the bytes of witness arguments whose lock is
/// `signature`.
pub uninterp spec fn witness_of_signature(signature: Seq<u8>) -> packed::Bytes;

/// The block that differs from `block` in holding exactly `txs`.
pub uninterp spec fn block_with_transactions(
    block: packed::Block,
    txs: Seq<packed::Transaction>,
) -> packed::Block;

/// The transaction that differs from `tx` in holding exactly `inputs`.
pub uninterp spec fn transaction_with_inputs(
    tx: packed::Transaction,
    inputs: Seq<packed::CellInput>,
) -> packed::Transaction;

/// The transaction that differs from `tx` in holding exactly `outputs`
/// and the output data `data`.
pub uninterp spec fn transaction_with_outputs(
    tx: packed::Transaction,
    outputs: Seq<packed::CellOutput>,
    data: Seq<packed::Bytes>,
) -> packed::Transaction;

/// The transaction that differs from `tx` in holding exactly `witnesses`.
pub uninterp spec fn transaction_with_witnesses(
    tx: packed::Transaction,
    witnesses: Seq<packed::Bytes>,
) -> packed::Transaction;

/// `Block::serialized_size_without_uncle_proposals`: the length of the
/// block's bytes less those of its uncles' proposals.
#[verifier::external_body]
pub(crate) fn measure_block(block: &packed::Block) -> (size: usize)
    ensures
        size == block_size(*block),
{
    block.serialized_size_without_uncle_proposals()
}

/// `Transaction::serialized_size_in_block`: the length of the
/// transaction's bytes and of its offset in the block.
#[verifier::external_body]
pub(crate) fn measure_transaction(tx: &packed::Transaction) -> (size: usize)
    ensures
        size == transaction_size(*tx),
{
    tx.serialized_size_in_block()
}

/// `Transaction`'s `clone`: the copy is the same transaction.
#[verifier::external_body]
pub(crate) fn copy_transaction(tx: &packed::Transaction) -> (copy: packed::Transaction)
    ensures
        copy == *tx,
{
    tx.clone()
}

/// `TransactionVec::get_unchecked` on the block's transactions: the
/// transaction at `index`, which must be one of them.
#[verifier::external_body]
pub(crate) fn block_transaction_at(block: &packed::Block, index: usize) -> (tx:
    packed::Transaction)
    requires
        index < block_transactions(*block).len(),
    ensures
        tx == block_transactions(*block)[index as int],
{
    block.transactions().get_unchecked(index)
}

/// `CellInputVec::get_unchecked` on the transaction's inputs: the input
/// at `index`, which must be one of them.
#[verifier::external_body]
pub(crate) fn transaction_input_at(tx: &packed::Transaction, index: usize) -> (input:
    packed::CellInput)
    requires
        index < transaction_inputs(*tx).len(),
    ensures
        input == transaction_inputs(*tx)[index as int],
{
    tx.raw().inputs().get_unchecked(index)
}

/// `CellOutputVec::get_unchecked` on the transaction's outputs: the
/// output at `index`, which must be one of them.
#[verifier::external_body]
pub(crate) fn transaction_output_at(tx: &packed::Transaction, index: usize) -> (output:
    packed::CellOutput)
    requires
        index < transaction_outputs(*tx).len(),
    ensures
        output == transaction_outputs(*tx)[index as int],
{
    tx.raw().outputs().get_unchecked(index)
}

/// `BytesVec::get_unchecked` on the transaction's output data: the data
/// at `index`, which must be one of them.
#[verifier::external_body]
pub(crate) fn transaction_output_data_at(tx: &packed::Transaction, index: usize) -> (data:
    packed::Bytes)
    requires
        index < transaction_outputs_data(*tx).len(),
    ensures
        data == transaction_outputs_data(*tx)[index as int],
{
    tx.raw().outputs_data().get_unchecked(index)
}

/// `BytesVec::get_unchecked` on the transaction's witnesses: the witness
/// at `index`, which must be one of them.
#[verifier::external_body]
pub(crate) fn transaction_witness_at(tx: &packed::Transaction, index: usize) -> (witness:
    packed::Bytes)
    requires
        index < transaction_witnesses(*tx).len(),
    ensures
        witness == transaction_witnesses(*tx)[index as int],
{
    tx.witnesses().get_unchecked(index)
}

/// `BlockBuilder::transactions` on a copy of `block`: the same block
/// with `txs` in place of its transactions.
#[verifier::external_body]
pub(crate) fn replace_transactions(block: &packed::Block, txs: Vec<packed::Transaction>) -> (made:
    packed::Block)
    ensures
        made == block_with_transactions(*block, txs@),
{
    block.clone().as_builder().transactions(txs.pack()).build()
}

/// `RawTransactionBuilder::inputs` on a copy of `tx`: the same
/// transaction with `inputs` in place of its inputs.
#[verifier::external_body]
pub(crate) fn replace_inputs(tx: &packed::Transaction, inputs: Vec<packed::CellInput>) -> (made:
    packed::Transaction)
    ensures
        made == transaction_with_inputs(*tx, inputs@),
{
    let raw = tx.clone().raw().as_builder().inputs(inputs.pack()).build();
    tx.clone().as_builder().raw(raw).build()
}

/// `RawTransactionBuilder::outputs` and `outputs_data` on a copy of `tx`:
/// the same transaction with `outputs` and `data` in place of its own.
#[verifier::external_body]
pub(crate) fn replace_outputs(
    tx: &packed::Transaction,
    outputs: Vec<packed::CellOutput>,
    data: Vec<packed::Bytes>,
) -> (made: packed::Transaction)
    ensures
        made == transaction_with_outputs(*tx, outputs@, data@),
{
    let raw = tx.clone().raw().as_builder().outputs(outputs.pack()).outputs_data(
        data.pack(),
    ).build();
    tx.clone().as_builder().raw(raw).build()
}

/// `TransactionBuilder::witnesses` on a copy of `tx`: the same
/// transaction with `witnesses` in place of its witnesses.
#[verifier::external_body]
pub(crate) fn replace_witnesses(tx: &packed::Transaction, witnesses: Vec<packed::Bytes>) -> (made:
    packed::Transaction)
    ensures
        made == transaction_with_witnesses(*tx, witnesses@),
{
    tx.clone().as_builder().witnesses(witnesses.pack()).build()
}

/// `Pack::pack` of a byte slice: the bytes as a serialized byte string.
#[verifier::external_body]
pub(crate) fn pack_bytes(content: &[u8]) -> (packed: packed::Bytes)
    ensures
        packed == packed_bytes(content@),
{
    content.pack()
}

/// A header built by `RawHeaderBuilder` and `HeaderBuilder` with the
/// given `dao` and nothing else set.
#[verifier::external_body]
pub(crate) fn header_with_dao(dao: [u8; 32]) -> (header: packed::Header)
    ensures
        header == header_of_dao(dao@),
{
    let raw_header = packed::RawHeader::new_builder().dao(dao.pack()).build();
    packed::Header::new_builder().raw(raw_header).build()
}

/// A cell dependency built by `CellDepBuilder` with the given type and
/// nothing else set.
#[verifier::external_body]
pub(crate) fn cell_dep_with_type(dep_type: u8) -> (cell_dep: packed::CellDep)
    ensures
        cell_dep == cell_dep_of_type(dep_type),
{
    packed::CellDep::new_builder().dep_type(dep_type).build()
}

/// A cell input built by `CellInputBuilder` with the given `since` and
/// nothing else set.
#[verifier::external_body]
pub(crate) fn cell_input_with_since(since: u64) -> (input: packed::CellInput)
    ensures
        input == cell_input_of_since(since),
{
    packed::CellInput::new_builder().since(since).build()
}

/// A cell output built by `CellOutputBuilder` whose lock script has the
/// given arguments and nothing else set.
#[verifier::external_body]
pub(crate) fn locked_cell_output(args: Vec<u8>) -> (output: packed::CellOutput)
    ensures
        output == locked_output(args@),
{
    let args = Bytes::from(args);
    let script = packed::Script::new_builder().args(args.pack()).build();
    packed::CellOutput::new_builder().lock(script).build()
}

/// The bytes of a `CellbaseWitness` with the given message and nothing
/// else set, as a witness.
#[verifier::external_body]
pub(crate) fn cellbase_witness(message: Vec<u8>) -> (witness: packed::Bytes)
    ensures
        witness == witness_of_cellbase(message@),
{
    let message = Bytes::from(message);
    packed::CellbaseWitness::new_builder().message(message.pack()).build().as_bytes().pack()
}

/// The bytes of a `WitnessArgs` whose lock is the given signature and
/// nothing else set, as a witness.
#[verifier::external_body]
pub(crate) fn signature_witness(signature: Vec<u8>) -> (witness: packed::Bytes)
    ensures
        witness == witness_of_signature(signature@),
{
    let signature = Bytes::from(signature);
    packed::WitnessArgs::new_builder().lock(Some(signature).pack()).build().as_bytes().pack()
}

/// A transaction built by `RawTransactionBuilder` and
/// `TransactionBuilder` from its parts, which it then holds, with nothing
/// else set.
#[verifier::external_body]
pub(crate) fn new_transaction(
    cell_deps: Vec<packed::CellDep>,
    inputs: Vec<packed::CellInput>,
    outputs: Vec<packed::CellOutput>,
    outputs_data: Vec<packed::Bytes>,
    witnesses: Vec<packed::Bytes>,
) -> (tx: packed::Transaction)
    ensures
        tx == transaction_of(cell_deps@, inputs@, outputs@, outputs_data@, witnesses@),
        transaction_cell_deps(tx) == cell_deps@,
        transaction_inputs(tx) == inputs@,
        transaction_outputs(tx) == outputs@,
        transaction_outputs_data(tx) == outputs_data@,
        transaction_witnesses(tx) == witnesses@,
{
    let raw_tx = packed::RawTransaction::new_builder().cell_deps(cell_deps.pack()).inputs(
        inputs.pack(),
    ).outputs(outputs.pack()).outputs_data(outputs_data.pack()).build();
    packed::Transaction::new_builder().raw(raw_tx).witnesses(witnesses.pack()).build()
}

/// A block built by `BlockBuilder` from a header and transactions, which
/// it then holds, with no uncle and no proposal.
#[verifier::external_body]
pub(crate) fn new_block(header: packed::Header, txs: Vec<packed::Transaction>) -> (block:
    packed::Block)
    ensures
        block == block_of(header, txs@),
        block_header(block) == header,
        block_uncles(block) == Seq::<packed::UncleBlock>::empty(),
        block_transactions(block) == txs@,
        block_proposals(block) == Seq::<packed::ProposalShortId>::empty(),
{
    packed::Block::new_builder().header(header).transactions(txs.pack()).build()
}

} // verus!
