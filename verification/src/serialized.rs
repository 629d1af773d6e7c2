//! The byte costs of the parts of a block, found by measuring a small
//! block and a small transaction with one, two and three copies of a part.

use ckb_types::packed;
use vstd::prelude::*;

use crate::codec::{
    block_header, block_of, block_proposals, block_size, block_transaction_at,
    block_transactions, block_uncles, block_with_transactions, cell_dep_of_type,
    cell_dep_with_type, cell_input_of_since, cell_input_with_since, cellbase_witness,
    copy_transaction, header_of_dao, header_with_dao, locked_cell_output, locked_output,
    measure_block, measure_transaction, new_block, new_transaction, pack_bytes, packed_bytes,
    replace_inputs, replace_outputs, replace_transactions, replace_witnesses,
    signature_witness, transaction_cell_deps, transaction_input_at, transaction_inputs,
    transaction_of, transaction_output_at, transaction_output_data_at, transaction_outputs,
    transaction_outputs_data, transaction_size, transaction_witness_at,
    transaction_witnesses, transaction_with_inputs, transaction_with_outputs,
    transaction_with_witnesses, witness_of_cellbase, witness_of_signature,
};
use crate::error::RegistryError;

verus! {

/// The small block and the small transaction that the probes are made of.
#[derive(Debug)]
pub struct BaseStruct {
    block: packed::Block,
    transaction: packed::Transaction,
}

/// What a `BaseStruct` holds.
pub struct BaseStructView {
    pub block: packed::Block,
    pub transaction: packed::Transaction,
}

/// The byte costs: of a block with its cellbase alone, and of one more
/// transaction, cell input, cell output and witness.
#[derive(Debug)]
pub struct BaseSerializedSize {
    block: usize,
    transaction: usize,
    cell_input: usize,
    cell_output: usize,
    witness: usize,
}

/// What a `BaseSerializedSize` holds.
pub struct BaseSizes {
    pub block: usize,
    pub transaction: usize,
    pub cell_input: usize,
    pub cell_output: usize,
    pub witness: usize,
}

/// The three sizes measured with one, two and three copies of a part.
#[derive(Clone, Copy, Debug, PartialEq, Eq, Structural)]
pub struct Probe {
    pub one: usize,
    pub two: usize,
    pub three: usize,
}

/// The four sizes measured on blocks: of the cellbase-only block, of the
/// transaction in a block, and of the block with one and two of it added.
#[derive(Clone, Copy, Debug, PartialEq, Eq, Structural)]
pub struct BlockProbe {
    pub base: usize,
    pub transaction: usize,
    pub one_more: usize,
    pub two_more: usize,
}

/// `count` zero bytes.
pub open spec fn spec_zero_bytes(count: nat) -> Seq<u8> {
    Seq::new(count, |i: int| 0u8)
}

/// The cellbase of the base block: no cell dependency, one input with
/// `since` zero, one output with an empty lock script, its empty data, and
/// the witness of a cellbase with an empty message.
pub open spec fn spec_base_cellbase() -> packed::Transaction {
    transaction_of(
        Seq::<packed::CellDep>::empty(),
        seq![cell_input_of_since(0)],
        seq![locked_output(Seq::<u8>::empty())],
        seq![packed_bytes(Seq::<u8>::empty())],
        seq![witness_of_cellbase(Seq::<u8>::empty())],
    )
}

/// The base block: a header whose `dao` is 32 zero bytes, the cellbase as
/// its only transaction, no uncle and no proposal.
pub open spec fn spec_base_block() -> packed::Block {
    block_of(header_of_dao(spec_zero_bytes(32)), seq![spec_base_cellbase()])
}

/// The base transaction: one cell dependency of type zero, one input with
/// `since` zero, one output locked by a script with 20 zero bytes of
/// arguments, its empty data, and one witness whose lock is a signature
/// of 65 zero bytes.
pub open spec fn spec_base_transaction() -> packed::Transaction {
    transaction_of(
        seq![cell_dep_of_type(0)],
        seq![cell_input_of_since(0)],
        seq![locked_output(spec_zero_bytes(20))],
        seq![packed_bytes(Seq::<u8>::empty())],
        seq![witness_of_signature(spec_zero_bytes(65))],
    )
}

/// `count` zero bytes.
pub fn zero_bytes(count: usize) -> (bytes: Vec<u8>)
    ensures
        bytes@ == spec_zero_bytes(count as nat),
{
    let mut bytes: Vec<u8> = Vec::new();
    let mut i: usize = 0;
    while i < count
        invariant
            i <= count,
            bytes@ == spec_zero_bytes(i as nat),
        decreases count - i,
    {
        bytes.push(0u8);
        assert(bytes@ =~= spec_zero_bytes((i + 1) as nat));
        i = i + 1;
    }
    bytes
}

/// The message of a failed estimate of the cost of `what`.
pub open spec fn spec_estimate_failure(what: Seq<char>) -> Seq<char> {
    "failed to estimate serialized size for "@ + what
}

/// The error of a failed estimate of the cost of `what`.
pub fn estimate_failure(what: &str) -> (error: RegistryError)
    ensures
        error matches RegistryError::Unreachable(message) && message@ == spec_estimate_failure(
            what@,
        ),
{
    let mut message: String = "failed to estimate serialized size for ".to_owned();
    message.append(what);
    RegistryError::Unreachable(message)
}

impl Probe {
    /// Whether the size grows by the same amount with each copy, and does
    /// not shrink.
    pub open spec fn spec_is_linear(self) -> bool {
        self.one + self.three == 2 * self.two && self.one <= self.two
    }

    /// The cost of one more copy, where the sizes grow linearly.
    pub open spec fn spec_marginal_cost(self) -> Option<usize> {
        if self.spec_is_linear() {
            Some((self.two - self.one) as usize)
        } else {
            None
        }
    }

    /// The cost of one more copy of `what`: the growth from one copy to
    /// two, if the growth from two to three is the same; else the error
    /// of a failed estimate.
    pub fn marginal_cost(&self, what: &str) -> (r: Result<usize, RegistryError>)
        ensures
            match self.spec_marginal_cost() {
                Some(cost) => r == Ok::<usize, RegistryError>(cost),
                None => r matches Err(RegistryError::Unreachable(message)) && message@
                    == spec_estimate_failure(what@),
            },
    {
        let sum: u128 = self.one as u128 + self.three as u128;
        let twice: u128 = 2 * (self.two as u128);
        if sum != twice || self.two < self.one {
            Err(estimate_failure(what))
        } else {
            Ok(self.two - self.one)
        }
    }
}

impl BlockProbe {
    /// Whether each added transaction adds its own size to the block.
    pub open spec fn spec_is_linear(self) -> bool {
        self.one_more == self.base + self.transaction && self.two_more == self.base + 2
            * self.transaction
    }

    /// The cost of the block with its cellbase alone, where the sizes grow
    /// linearly.
    pub open spec fn spec_base_cost(self) -> Option<usize> {
        if self.spec_is_linear() {
            Some(self.base)
        } else {
            None
        }
    }

    /// The size of the cellbase-only block, if each added transaction
    /// adds its own size; else the error of a failed estimate.
    pub fn base_cost(&self) -> (r: Result<usize, RegistryError>)
        ensures
            match self.spec_base_cost() {
                Some(cost) => r == Ok::<usize, RegistryError>(cost),
                None => r matches Err(RegistryError::Unreachable(message)) && message@
                    == spec_estimate_failure("blocks"@),
            },
    {
        let one: u128 = self.base as u128 + self.transaction as u128;
        let two: u128 = self.base as u128 + 2 * (self.transaction as u128);
        if self.one_more as u128 != one || self.two_more as u128 != two {
            Err(estimate_failure("blocks"))
        } else {
            Ok(self.base)
        }
    }
}

/// Whether `r` is what an estimate of the cost of `what` gives on `probe`.
pub open spec fn is_estimate_of(
    probe: Probe,
    what: Seq<char>,
    r: Result<usize, RegistryError>,
) -> bool {
    match probe.spec_marginal_cost() {
        Some(cost) => r == Ok::<usize, RegistryError>(cost),
        None => r matches Err(RegistryError::Unreachable(message)) && message@
            == spec_estimate_failure(what),
    }
}

/// The sizes of the block with its cellbase alone, of the transaction,
/// and of the block with the transaction added once and twice.
pub open spec fn spec_block_probe(base: BaseStructView) -> BlockProbe {
    let cellbase = block_transactions(base.block)[0];
    let tx = base.transaction;
    BlockProbe {
        base: block_size(base.block),
        transaction: transaction_size(tx),
        one_more: block_size(block_with_transactions(base.block, seq![cellbase, tx])),
        two_more: block_size(block_with_transactions(base.block, seq![cellbase, tx, tx])),
    }
}

/// The sizes of the transaction with its first input once, twice and
/// three times.
pub open spec fn spec_cell_input_probe(tx: packed::Transaction) -> Probe {
    let input = transaction_inputs(tx)[0];
    Probe {
        one: transaction_size(tx),
        two: transaction_size(transaction_with_inputs(tx, seq![input, input])),
        three: transaction_size(transaction_with_inputs(tx, seq![input, input, input])),
    }
}

/// The sizes of the transaction with its first output once, twice and
/// three times, each added output with empty data.
pub open spec fn spec_cell_output_probe(tx: packed::Transaction) -> Probe {
    let output = transaction_outputs(tx)[0];
    let data = transaction_outputs_data(tx)[0];
    let empty = packed_bytes(Seq::<u8>::empty());
    Probe {
        one: transaction_size(tx),
        two: transaction_size(
            transaction_with_outputs(tx, seq![output, output], seq![data, empty]),
        ),
        three: transaction_size(
            transaction_with_outputs(
                tx,
                seq![output, output, output],
                seq![data, empty, empty],
            ),
        ),
    }
}

/// The sizes of the transaction with its first witness once, twice and
/// three times.
pub open spec fn spec_witness_probe(tx: packed::Transaction) -> Probe {
    let witness = transaction_witnesses(tx)[0];
    Probe {
        one: transaction_size(tx),
        two: transaction_size(transaction_with_witnesses(tx, seq![witness, witness])),
        three: transaction_size(
            transaction_with_witnesses(tx, seq![witness, witness, witness]),
        ),
    }
}

/// The cost of a transaction without its one input, output and witness.
pub open spec fn spec_transaction_cost(
    size: usize,
    cell_input: usize,
    cell_output: usize,
    witness: usize,
) -> Option<usize> {
    if cell_input + cell_output + witness <= size {
        Some((size - (cell_input + cell_output + witness)) as usize)
    } else {
        None
    }
}

/// The cost of a transaction without its one input, output and witness:
/// its size in a block less the three costs; the error of a failed
/// estimate where they exceed it.
pub fn transaction_cost(size: usize, cell_input: usize, cell_output: usize, witness: usize) -> (r:
    Result<usize, RegistryError>)
    ensures
        match spec_transaction_cost(size, cell_input, cell_output, witness) {
            Some(cost) => r == Ok::<usize, RegistryError>(cost),
            None => r matches Err(RegistryError::Unreachable(message)) && message@
                == spec_estimate_failure("transactions"@),
        },
{
    let parts: u128 = cell_input as u128 + cell_output as u128 + witness as u128;
    if parts > size as u128 {
        Err(estimate_failure("transactions"))
    } else {
        Ok(size - (cell_input + cell_output + witness))
    }
}

/// The costs that the probes of `base` give, if every estimate succeeds.
pub open spec fn spec_base_sizes(base: BaseStructView) -> Option<BaseSizes> {
    let block = spec_block_probe(base).spec_base_cost();
    let cell_input = spec_cell_input_probe(base.transaction).spec_marginal_cost();
    let cell_output = spec_cell_output_probe(base.transaction).spec_marginal_cost();
    let witness = spec_witness_probe(base.transaction).spec_marginal_cost();
    if block is Some && cell_input is Some && cell_output is Some && witness is Some {
        match spec_transaction_cost(
            transaction_size(base.transaction),
            cell_input->Some_0,
            cell_output->Some_0,
            witness->Some_0,
        ) {
            Some(transaction) => Some(
                BaseSizes {
                    block: block->Some_0,
                    transaction,
                    cell_input: cell_input->Some_0,
                    cell_output: cell_output->Some_0,
                    witness: witness->Some_0,
                },
            ),
            None => None,
        }
    } else {
        None
    }
}

/// The part whose estimate fails first, in the order blocks, cell inputs,
/// cell outputs, witnesses, transactions.
pub open spec fn spec_first_failure(base: BaseStructView) -> Seq<char> {
    if spec_block_probe(base).spec_base_cost() is None {
        "blocks"@
    } else if spec_cell_input_probe(base.transaction).spec_marginal_cost() is None {
        "cell inputs"@
    } else if spec_cell_output_probe(base.transaction).spec_marginal_cost() is None {
        "cell outputs"@
    } else if spec_witness_probe(base.transaction).spec_marginal_cost() is None {
        "witnesses"@
    } else {
        "transactions"@
    }
}

impl View for BaseStruct {
    type V = BaseStructView;

    closed spec fn view(&self) -> BaseStructView {
        BaseStructView { block: self.block, transaction: self.transaction }
    }
}

impl BaseStruct {
    /// The block holds a transaction, and the transaction an input, an
    /// output with its data, and a witness.
    #[verifier::type_invariant]
    closed spec fn well_formed(&self) -> bool {
        &&& block_transactions(self.block).len() >= 1
        &&& transaction_inputs(self.transaction).len() >= 1
        &&& transaction_outputs(self.transaction).len() >= 1
        &&& transaction_outputs_data(self.transaction).len() >= 1
        &&& transaction_witnesses(self.transaction).len() >= 1
    }

    /// What every `BaseStruct` holds: a block with a transaction, and a
    /// transaction with an input, an output with its data, and a witness.
    pub open spec fn spec_complete(base: BaseStructView) -> bool {
        &&& block_transactions(base.block).len() >= 1
        &&& transaction_inputs(base.transaction).len() >= 1
        &&& transaction_outputs(base.transaction).len() >= 1
        &&& transaction_outputs_data(base.transaction).len() >= 1
        &&& transaction_witnesses(base.transaction).len() >= 1
    }

    /// Builds the base block and the base transaction.
    pub fn initialize() -> (base: BaseStruct)
        ensures
            base@.block == spec_base_block(),
            base@.transaction == spec_base_transaction(),
            BaseStruct::spec_complete(base@),
            block_header(base@.block) == header_of_dao(spec_zero_bytes(32)),
            block_uncles(base@.block).len() == 0,
            block_proposals(base@.block).len() == 0,
            block_transactions(base@.block) == seq![spec_base_cellbase()],
            transaction_cell_deps(spec_base_cellbase()).len() == 0,
            transaction_inputs(spec_base_cellbase()) == seq![cell_input_of_since(0)],
            transaction_outputs(spec_base_cellbase()) == seq![
                locked_output(Seq::<u8>::empty()),
            ],
            transaction_outputs_data(spec_base_cellbase()) == seq![
                packed_bytes(Seq::<u8>::empty()),
            ],
            transaction_witnesses(spec_base_cellbase()) == seq![
                witness_of_cellbase(Seq::<u8>::empty()),
            ],
            transaction_cell_deps(base@.transaction) == seq![cell_dep_of_type(0)],
            transaction_inputs(base@.transaction) == seq![cell_input_of_since(0)],
            transaction_outputs(base@.transaction) == seq![
                locked_output(spec_zero_bytes(20)),
            ],
            transaction_outputs_data(base@.transaction) == seq![
                packed_bytes(Seq::<u8>::empty()),
            ],
            transaction_witnesses(base@.transaction) == seq![
                witness_of_signature(spec_zero_bytes(65)),
            ],
    {
        let block = BaseStruct::construct_base_block();
        let transaction = BaseStruct::construct_base_transaction();
        BaseStruct { block, transaction }
    }

    /// The base block: a header with an empty `dao`, no uncle, no
    /// proposal and, as its only transaction, a cellbase with no cell
    /// dependency, one empty input, one empty output with empty data, and
    /// the witness of a cellbase.
    pub fn construct_base_block() -> (block: packed::Block)
        ensures
            block == spec_base_block(),
            block_header(block) == header_of_dao(spec_zero_bytes(32)),
            block_uncles(block).len() == 0,
            block_proposals(block).len() == 0,
            block_transactions(block) == seq![spec_base_cellbase()],
            transaction_cell_deps(spec_base_cellbase()).len() == 0,
            transaction_inputs(spec_base_cellbase()) == seq![cell_input_of_since(0)],
            transaction_outputs(spec_base_cellbase()) == seq![
                locked_output(Seq::<u8>::empty()),
            ],
            transaction_outputs_data(spec_base_cellbase()) == seq![
                packed_bytes(Seq::<u8>::empty()),
            ],
            transaction_witnesses(spec_base_cellbase()) == seq![
                witness_of_cellbase(Seq::<u8>::empty()),
            ],
    {
        let dao: [u8; 32] = [0u8; 32];
        assert(dao@ =~= spec_zero_bytes(32));
        let header = header_with_dao(dao);
        let no_bytes: Vec<u8> = Vec::new();
        assert(no_bytes@ =~= Seq::<u8>::empty());
        assert(spec_zero_bytes(0) =~= Seq::<u8>::empty());
        let cell_deps: Vec<packed::CellDep> = Vec::new();
        let inputs = vec![cell_input_with_since(0)];
        let outputs = vec![locked_cell_output(zero_bytes(0))];
        let outputs_data = vec![pack_bytes(no_bytes.as_slice())];
        let witnesses = vec![cellbase_witness(zero_bytes(0))];
        assert(cell_deps@ =~= Seq::<packed::CellDep>::empty());
        assert(inputs@ =~= seq![cell_input_of_since(0)]);
        assert(outputs@ =~= seq![locked_output(Seq::<u8>::empty())]);
        assert(outputs_data@ =~= seq![packed_bytes(Seq::<u8>::empty())]);
        assert(witnesses@ =~= seq![witness_of_cellbase(Seq::<u8>::empty())]);
        let cellbase = new_transaction(cell_deps, inputs, outputs, outputs_data, witnesses);
        let txs = vec![cellbase];
        assert(txs@ =~= seq![spec_base_cellbase()]);
        new_block(header, txs)
    }

    /// The base transaction: one empty cell dependency, one empty input,
    /// one output locked by a script of 20 bytes of arguments, with empty
    /// data, and one witness that holds a signature of 65 bytes.
    pub fn construct_base_transaction() -> (tx: packed::Transaction)
        ensures
            tx == spec_base_transaction(),
            transaction_cell_deps(tx) == seq![cell_dep_of_type(0)],
            transaction_inputs(tx) == seq![cell_input_of_since(0)],
            transaction_outputs(tx) == seq![locked_output(spec_zero_bytes(20))],
            transaction_outputs_data(tx) == seq![packed_bytes(Seq::<u8>::empty())],
            transaction_witnesses(tx) == seq![witness_of_signature(spec_zero_bytes(65))],
    {
        let no_bytes: Vec<u8> = Vec::new();
        assert(no_bytes@ =~= Seq::<u8>::empty());
        let cell_deps = vec![cell_dep_with_type(0)];
        let inputs = vec![cell_input_with_since(0)];
        let outputs = vec![locked_cell_output(zero_bytes(20))];
        let outputs_data = vec![pack_bytes(no_bytes.as_slice())];
        let witnesses = vec![signature_witness(zero_bytes(65))];
        assert(cell_deps@ =~= seq![cell_dep_of_type(0)]);
        assert(inputs@ =~= seq![cell_input_of_since(0)]);
        assert(outputs@ =~= seq![locked_output(spec_zero_bytes(20))]);
        assert(outputs_data@ =~= seq![packed_bytes(Seq::<u8>::empty())]);
        assert(witnesses@ =~= seq![witness_of_signature(spec_zero_bytes(65))]);
        new_transaction(cell_deps, inputs, outputs, outputs_data, witnesses)
    }

    pub fn block(&self) -> (block: &packed::Block)
        ensures
            *block == self@.block,
            BaseStruct::spec_complete(self@),
    {
        proof {
            use_type_invariant(self);
        }
        &self.block
    }

    pub fn transaction(&self) -> (tx: &packed::Transaction)
        ensures
            *tx == self@.transaction,
            BaseStruct::spec_complete(self@),
    {
        proof {
            use_type_invariant(self);
        }
        &self.transaction
    }
}

impl View for BaseSerializedSize {
    type V = BaseSizes;

    closed spec fn view(&self) -> BaseSizes {
        BaseSizes {
            block: self.block,
            transaction: self.transaction,
            cell_input: self.cell_input,
            cell_output: self.cell_output,
            witness: self.witness,
        }
    }
}

impl BaseSerializedSize {
    /// Measures the probes of `base` and derives the five costs. It fails
    /// with the error of the first estimate that fails.
    pub fn initialize(base: &BaseStruct) -> (r: Result<BaseSerializedSize, RegistryError>)
        ensures
            match spec_base_sizes(base@) {
                Some(sizes) => r is Ok && r->Ok_0@ == sizes,
                None => r matches Err(RegistryError::Unreachable(message)) && message@
                    == spec_estimate_failure(spec_first_failure(base@)),
            },
    {
        let block = match BaseSerializedSize::estimate_base_block_serialized_size(base) {
            Ok(cost) => cost,
            Err(error) => {
                return Err(error);
            },
        };
        let cell_input = match BaseSerializedSize::estimate_base_cell_input_serialized_size(base) {
            Ok(cost) => cost,
            Err(error) => {
                return Err(error);
            },
        };
        let cell_output = match BaseSerializedSize::estimate_base_cell_output_serialized_size(
            base,
        ) {
            Ok(cost) => cost,
            Err(error) => {
                return Err(error);
            },
        };
        let witness = match BaseSerializedSize::estimate_base_witness_serialized_size(base) {
            Ok(cost) => cost,
            Err(error) => {
                return Err(error);
            },
        };
        let size = measure_transaction(base.transaction());
        let transaction = match transaction_cost(size, cell_input, cell_output, witness) {
            Ok(cost) => cost,
            Err(error) => {
                return Err(error);
            },
        };
        Ok(BaseSerializedSize { block, transaction, cell_input, cell_output, witness })
    }

    /// The size of the block with its cellbase alone, if the block grows
    /// by the transaction's size with each transaction added.
    pub fn estimate_base_block_serialized_size(base: &BaseStruct) -> (r: Result<
        usize,
        RegistryError,
    >)
        ensures
            match spec_block_probe(base@).spec_base_cost() {
                Some(cost) => r == Ok::<usize, RegistryError>(cost),
                None => r matches Err(RegistryError::Unreachable(message)) && message@
                    == spec_estimate_failure("blocks"@),
            },
    {
        let block = base.block();
        let tx = base.transaction();
        let base_block_size = measure_block(block);
        let tx_size = measure_transaction(tx);
        let block1 = replace_transactions(
            block,
            vec![block_transaction_at(block, 0), copy_transaction(tx)],
        );
        let block2 = replace_transactions(
            block,
            vec![block_transaction_at(block, 0), copy_transaction(tx), copy_transaction(tx)],
        );
        let probe = BlockProbe {
            base: base_block_size,
            transaction: tx_size,
            one_more: measure_block(&block1),
            two_more: measure_block(&block2),
        };
        probe.base_cost()
    }

    /// The cost of one more cell input, if the transaction grows by the
    /// same amount with the second and the third.
    pub fn estimate_base_cell_input_serialized_size(base: &BaseStruct) -> (r: Result<
        usize,
        RegistryError,
    >)
        ensures
            is_estimate_of(spec_cell_input_probe(base@.transaction), "cell inputs"@, r),
    {
        let tx0 = base.transaction();
        let tx1 = replace_inputs(
            tx0,
            vec![transaction_input_at(tx0, 0), transaction_input_at(tx0, 0)],
        );
        let tx2 = replace_inputs(
            tx0,
            vec![
                transaction_input_at(tx0, 0),
                transaction_input_at(tx0, 0),
                transaction_input_at(tx0, 0),
            ],
        );
        let probe = Probe {
            one: measure_transaction(tx0),
            two: measure_transaction(&tx1),
            three: measure_transaction(&tx2),
        };
        probe.marginal_cost("cell inputs")
    }

    /// The cost of one more cell output with empty data, if the
    /// transaction grows by the same amount with the second and the third.
    pub fn estimate_base_cell_output_serialized_size(base: &BaseStruct) -> (r: Result<
        usize,
        RegistryError,
    >)
        ensures
            is_estimate_of(spec_cell_output_probe(base@.transaction), "cell outputs"@, r),
    {
        let tx0 = base.transaction();
        let no_bytes: Vec<u8> = Vec::new();
        let tx1 = replace_outputs(
            tx0,
            vec![transaction_output_at(tx0, 0), transaction_output_at(tx0, 0)],
            vec![transaction_output_data_at(tx0, 0), pack_bytes(no_bytes.as_slice())],
        );
        let tx2 = replace_outputs(
            tx0,
            vec![
                transaction_output_at(tx0, 0),
                transaction_output_at(tx0, 0),
                transaction_output_at(tx0, 0),
            ],
            vec![
                transaction_output_data_at(tx0, 0),
                pack_bytes(no_bytes.as_slice()),
                pack_bytes(no_bytes.as_slice()),
            ],
        );
        let probe = Probe {
            one: measure_transaction(tx0),
            two: measure_transaction(&tx1),
            three: measure_transaction(&tx2),
        };
        probe.marginal_cost("cell outputs")
    }

    /// The cost of one more witness, if the transaction grows by the same
    /// amount with the second and the third.
    pub fn estimate_base_witness_serialized_size(base: &BaseStruct) -> (r: Result<
        usize,
        RegistryError,
    >)
        ensures
            is_estimate_of(spec_witness_probe(base@.transaction), "witnesses"@, r),
    {
        let tx0 = base.transaction();
        let tx1 = replace_witnesses(
            tx0,
            vec![transaction_witness_at(tx0, 0), transaction_witness_at(tx0, 0)],
        );
        let tx2 = replace_witnesses(
            tx0,
            vec![
                transaction_witness_at(tx0, 0),
                transaction_witness_at(tx0, 0),
                transaction_witness_at(tx0, 0),
            ],
        );
        let probe = Probe {
            one: measure_transaction(tx0),
            two: measure_transaction(&tx1),
            three: measure_transaction(&tx2),
        };
        probe.marginal_cost("witnesses")
    }

    pub fn block(&self) -> (cost: usize)
        ensures
            cost == self@.block,
    {
        self.block
    }

    pub fn transaction(&self) -> (cost: usize)
        ensures
            cost == self@.transaction,
    {
        self.transaction
    }

    pub fn cell_input(&self) -> (cost: usize)
        ensures
            cost == self@.cell_input,
    {
        self.cell_input
    }

    pub fn cell_output(&self) -> (cost: usize)
        ensures
            cost == self@.cell_output,
    {
        self.cell_output
    }

    pub fn witness(&self) -> (cost: usize)
        ensures
            cost == self@.witness,
    {
        self.witness
    }
}


/// A probe gives a cost exactly where its sizes grow linearly, and then
/// each further copy adds that cost: the first and the third size sum to
/// twice the second.
pub proof fn lemma_marginal_cost_is_the_growth(probe: Probe)
    ensures
        probe.spec_marginal_cost() is Some <==> probe.one + probe.three == 2 * probe.two
            && probe.one <= probe.two,
        probe.spec_marginal_cost() matches Some(cost) ==> probe.one + cost == probe.two
            && probe.two + cost == probe.three,
{
}

/// Where the block estimate gives a cost, the block with its cellbase and
/// `n` copies of the transaction, for `n` up to two, has the size of that
/// cost and `n` times the transaction's size.
pub proof fn lemma_block_grows_by_transaction(base: BaseStructView, cost: usize)
    requires
        spec_block_probe(base).spec_base_cost() == Some(cost),
    ensures
        block_size(base.block) == cost + 0 * transaction_size(base.transaction),
        block_size(
            block_with_transactions(
                base.block,
                seq![block_transactions(base.block)[0], base.transaction],
            ),
        ) == cost + 1 * transaction_size(base.transaction),
        block_size(
            block_with_transactions(
                base.block,
                seq![block_transactions(base.block)[0], base.transaction, base.transaction],
            ),
        ) == cost + 2 * transaction_size(base.transaction),
{
}

/// Where every estimate succeeds, the block cost is the size of the
/// block with its cellbase alone, and the four costs of a transaction and
/// its parts sum to the transaction's size in a block.
pub proof fn lemma_base_sizes_add_up(base: BaseStructView, sizes: BaseSizes)
    requires
        spec_base_sizes(base) == Some(sizes),
    ensures
        sizes.block == block_size(base.block),
        sizes.transaction + sizes.cell_input + sizes.cell_output + sizes.witness
            == transaction_size(base.transaction),
        spec_cell_input_probe(base.transaction).spec_is_linear(),
        spec_cell_output_probe(base.transaction).spec_is_linear(),
        spec_witness_probe(base.transaction).spec_is_linear(),
        spec_block_probe(base).spec_is_linear(),
{
}


} // verus!
