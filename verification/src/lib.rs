//! Extraction of typed events from the system program's instructions inside
//! a block of transactions: a binary-layout decoder for instruction data, an
//! account-role resolver over the per-transaction account table, and the
//! driver that filters transactions and instructions and assembles ordered
//! per-transaction event lists.

use vstd::prelude::*;

pub mod errors;
pub mod events;
pub mod pubkey;
pub mod resolver;
pub mod system_program;
pub mod token_metadata;

pub use errors::{DecodeError, ParseError, ResolveError};
pub use events::Event;
pub use pubkey::{AccountTable, Pubkey};
pub use resolver::ResolvedAccounts;
pub use system_program::SystemInstruction;

use crate::errors::{decode_error_to_parse, lift_decode_error, lift_resolve_error, resolve_error_to_parse};
use crate::events::{assemble, assemble_spec, variants_match, EventView};
use crate::pubkey::{is_system_program, system_program_key};
use crate::resolver::{resolve, resolve_spec};
use crate::system_program::decode_spec;

verus! {

/// One instruction as the engine consumes it: the owning program's index
/// into the account table, the positional account-index list, and the raw
/// data bytes.
#[derive(Clone, Debug, PartialEq, Eq)]
pub struct RawInstruction {
    pub program_index: u32,
    pub account_indices: Vec<u32>,
    pub data: Vec<u8>,
}

/// The mathematical shape of one raw instruction.
#[verifier::ext_equal]
pub struct RawInstructionView {
    pub program_index: u32,
    pub account_indices: Seq<u32>,
    pub data: Seq<u8>,
}

impl View for RawInstruction {
    type V = RawInstructionView;

    open spec fn view(&self) -> RawInstructionView {
        RawInstructionView {
            program_index: self.program_index,
            account_indices: self.account_indices@,
            data: self.data@,
        }
    }
}

/// One transaction as handed over by the outer transport: failure flag,
/// signature text, the flattened execution-ordered instruction stream, and
/// the fully resolved account table.
#[derive(Clone, Debug, PartialEq, Eq)]
pub struct TransactionInput {
    pub failed: bool,
    pub signature: String,
    pub instructions: Vec<RawInstruction>,
    pub accounts: AccountTable,
}

/// The mathematical shape of one transaction input.
#[verifier::ext_equal]
pub struct TransactionInputView {
    pub failed: bool,
    pub signature: Seq<char>,
    pub instructions: Seq<RawInstructionView>,
    pub accounts: Seq<Seq<u8>>,
}

impl View for TransactionInput {
    type V = TransactionInputView;

    open spec fn view(&self) -> TransactionInputView {
        TransactionInputView {
            failed: self.failed,
            signature: self.signature@,
            instructions: self.instructions@.map_values(|i: RawInstruction| i@),
            accounts: self.accounts@,
        }
    }
}

impl TransactionInput {
    /// Keys are 32 bytes wide and the stream's positions fit the output's
    /// index width.
    pub open spec fn wf(&self) -> bool {
        self.accounts.wf() && self.instructions@.len() <= u32::MAX
    }
}

/// One emitted event, tagged with its instruction's position within the
/// transaction's flattened stream.
#[derive(Clone, Debug, PartialEq, Eq)]
pub struct SystemProgramEvent {
    pub instruction_index: u32,
    pub event: Option<Event>,
}

/// The mathematical shape of one emitted event record.
#[verifier::ext_equal]
pub struct EventRecordView {
    pub instruction_index: u32,
    pub event: Option<EventView>,
}

impl View for SystemProgramEvent {
    type V = EventRecordView;

    open spec fn view(&self) -> EventRecordView {
        EventRecordView {
            instruction_index: self.instruction_index,
            event: match self.event {
                Some(e) => Some(e@),
                None => None,
            },
        }
    }
}

/// The events of one transaction that produced at least one, keyed by its
/// signature and its index within the block.
#[derive(Clone, Debug, PartialEq, Eq)]
pub struct SystemProgramTransactionEvents {
    pub signature: String,
    pub transaction_index: u32,
    pub events: Vec<SystemProgramEvent>,
}

/// The mathematical shape of one transaction's emitted events.
#[verifier::ext_equal]
pub struct TransactionEventsView {
    pub signature: Seq<char>,
    pub transaction_index: u32,
    pub events: Seq<EventRecordView>,
}

impl View for SystemProgramTransactionEvents {
    type V = TransactionEventsView;

    open spec fn view(&self) -> TransactionEventsView {
        TransactionEventsView {
            signature: self.signature@,
            transaction_index: self.transaction_index,
            events: events_view(self.events@),
        }
    }
}

/// The block-level result: one entry per transaction with events.
#[derive(Clone, Debug, PartialEq, Eq)]
pub struct SystemProgramBlockEvents {
    pub transactions: Vec<SystemProgramTransactionEvents>,
}

pub open spec fn events_view(events: Seq<SystemProgramEvent>) -> Seq<EventRecordView> {
    events.map_values(|e: SystemProgramEvent| e@)
}

pub open spec fn txs_view(txs: Seq<TransactionInput>) -> Seq<TransactionInputView> {
    txs.map_values(|t: TransactionInput| t@)
}

pub open spec fn tx_events_list_view(v: Seq<SystemProgramTransactionEvents>) -> Seq<
    TransactionEventsView,
> {
    v.map_values(|t: SystemProgramTransactionEvents| t@)
}

/// Whether the instruction's owning program is the system program.
pub open spec fn is_target_spec(program_index: u32, table: Seq<Seq<u8>>) -> bool {
    program_index < table.len() && table[program_index as int] == system_program_key()
}

/// What one instruction yields: the program filter, then decode, then
/// resolve, then the assembled event; or the first error met.
pub open spec fn parse_instruction_spec(ins: RawInstructionView, table: Seq<Seq<u8>>) -> Result<
    EventView,
    ParseError,
> {
    if !is_target_spec(ins.program_index, table) {
        Err(ParseError::ProgramMismatch)
    } else {
        match decode_spec(ins.data) {
            Err(e) => Err(decode_error_to_parse(e)),
            Ok(iv) => match resolve_spec(iv, ins.account_indices, table) {
                Err(e) => Err(resolve_error_to_parse(e)),
                Ok(rv) => Ok(assemble_spec(iv, rv)),
            },
        }
    }
}

/// The ordered event records of one transaction's instruction stream: one
/// record per instruction that parses, tagged with the instruction's
/// position, in stream order; instructions that fail to parse are skipped.
pub open spec fn tx_events_spec(instrs: Seq<RawInstructionView>, table: Seq<Seq<u8>>) -> Seq<
    EventRecordView,
>
    decreases instrs.len(),
{
    if instrs.len() == 0 {
        Seq::empty()
    } else {
        let prefix = tx_events_spec(instrs.drop_last(), table);
        match parse_instruction_spec(instrs.last(), table) {
            Ok(ev) => prefix.push(
                EventRecordView {
                    instruction_index: (instrs.len() - 1) as u32,
                    event: Some(ev),
                },
            ),
            Err(_) => prefix,
        }
    }
}

/// The block's output: one entry per non-failed transaction whose stream
/// produced at least one event, in block order, tagged with the
/// transaction's index within the block.
pub open spec fn block_events_spec(txs: Seq<TransactionInputView>) -> Seq<TransactionEventsView>
    decreases txs.len(),
{
    if txs.len() == 0 {
        Seq::empty()
    } else {
        let prefix = block_events_spec(txs.drop_last());
        let t = txs.last();
        if !t.failed && tx_events_spec(t.instructions, t.accounts).len() > 0 {
            prefix.push(
                TransactionEventsView {
                    signature: t.signature,
                    transaction_index: (txs.len() - 1) as u32,
                    events: tx_events_spec(t.instructions, t.accounts),
                },
            )
        } else {
            prefix
        }
    }
}

/// Instruction order is preserved end-to-end: each emitted record's stream
/// position is a valid position, and the records of one transaction carry
/// strictly increasing positions, in stream order.
pub proof fn lemma_events_ordered(instrs: Seq<RawInstructionView>, table: Seq<Seq<u8>>)
    requires
        instrs.len() <= u32::MAX,
    ensures
        ({
            let evs = tx_events_spec(instrs, table);
            &&& forall|i: int|
                #![trigger evs[i]]
                0 <= i < evs.len() ==> evs[i].instruction_index < instrs.len()
            &&& forall|i: int, j: int|
                #![trigger evs[i], evs[j]]
                0 <= i < j < evs.len() ==> evs[i].instruction_index < evs[j].instruction_index
        }),
    decreases instrs.len(),
{
    if instrs.len() > 0 {
        lemma_events_ordered(instrs.drop_last(), table);
    }
}

/// A transaction flagged failed contributes nothing to the block's output,
/// whatever its instructions hold.
pub proof fn lemma_failed_transaction_no_events(txs: Seq<TransactionInputView>)
    requires
        txs.len() > 0,
        txs.last().failed,
    ensures
        block_events_spec(txs) == block_events_spec(txs.drop_last()),
{
}

/// Parse one instruction: reject those of other programs, decode the data,
/// resolve the accounts, and assemble the event. The result is exactly
/// `parse_instruction_spec` of the views.
pub fn parse_instruction(instruction: &RawInstruction, table: &AccountTable) -> (r: Result<
    Option<Event>,
    ParseError,
>)
    requires
        table.wf(),
    ensures
        match r {
            Ok(ev) => ev matches Some(e) && parse_instruction_spec(instruction@, table@) == Ok::<
                EventView,
                ParseError,
            >(e@),
            Err(e) => parse_instruction_spec(instruction@, table@) == Err::<EventView, ParseError>(
                e,
            ),
        },
{
    let n = table.len();
    let pi = instruction.program_index as usize;
    if pi >= n {
        return Err(ParseError::ProgramMismatch);
    }
    if !is_system_program(&table.keys[pi]) {
        return Err(ParseError::ProgramMismatch);
    }
    match SystemInstruction::unpack(&instruction.data) {
        Err(e) => Err(lift_decode_error(e)),
        Ok(si) => match resolve(&si, &instruction.account_indices, table) {
            Err(e) => Err(lift_resolve_error(e)),
            Ok(ra) => {
                proof {
                    assert(variants_match(si@, ra@));
                }
                Ok(Some(assemble(si, ra)))
            },
        },
    }
}

/// Parse one transaction: a failed transaction yields no events at all;
/// otherwise every instruction of the flattened stream is tried in order
/// and each parsed event is tagged with its stream position. The list is
/// exactly `tx_events_spec` of the views.
pub fn parse_transaction(transaction: &TransactionInput) -> (r: Result<
    Vec<SystemProgramEvent>,
    ParseError,
>)
    requires
        transaction.wf(),
    ensures
        match r {
            Ok(events) => !transaction.failed && events_view(events@) == tx_events_spec(
                transaction@.instructions,
                transaction@.accounts,
            ),
            Err(e) => transaction.failed && e == ParseError::FailedTransactionSkip,
        },
{
    if transaction.failed {
        return Err(ParseError::FailedTransactionSkip);
    }
    let mut events: Vec<SystemProgramEvent> = Vec::new();
    let n = transaction.instructions.len();
    let mut i: usize = 0;
    while i < n
        invariant
            transaction.wf(),
            n == transaction.instructions@.len(),
            i <= n,
            events_view(events@) == tx_events_spec(
                transaction@.instructions.take(i as int),
                transaction@.accounts,
            ),
        decreases n - i,
    {
        match parse_instruction(&transaction.instructions[i], &transaction.accounts) {
            Ok(ev) => {
                events.push(SystemProgramEvent { instruction_index: i as u32, event: ev });
            },
            Err(_) => {},
        }
        i += 1;
        proof {
            let instrs = transaction@.instructions;
            assert(instrs.take(i as int).drop_last() =~= instrs.take(i as int - 1));
            assert(instrs.take(i as int).last() == instrs[i as int - 1]);
            assert(events_view(events@) =~= tx_events_spec(
                instrs.take(i as int),
                transaction@.accounts,
            ));
        }
    }
    proof {
        assert(transaction@.instructions.take(n as int) =~= transaction@.instructions);
    }
    Ok(events)
}

/// Parse one block: each transaction is tried independently; those that are
/// failed or produce no events are dropped; the rest are emitted in block
/// order, keyed by signature and index. The list is exactly
/// `block_events_spec` of the views.
pub fn parse_block(transactions: &Vec<TransactionInput>) -> (r: Vec<
    SystemProgramTransactionEvents,
>)
    requires
        transactions@.len() <= u32::MAX,
        forall|i: int| 0 <= i < transactions@.len() ==> (#[trigger] transactions@[i]).wf(),
    ensures
        tx_events_list_view(r@) == block_events_spec(txs_view(transactions@)),
{
    let mut out: Vec<SystemProgramTransactionEvents> = Vec::new();
    let n = transactions.len();
    let mut i: usize = 0;
    while i < n
        invariant
            n == transactions@.len(),
            n <= u32::MAX,
            i <= n,
            forall|j: int| 0 <= j < n ==> (#[trigger] transactions@[j]).wf(),
            tx_events_list_view(out@) == block_events_spec(txs_view(transactions@.take(i as int))),
        decreases n - i,
    {
        match parse_transaction(&transactions[i]) {
            Ok(events) => {
                if events.len() > 0 {
                    let signature = transactions[i].signature.clone();
                    out.push(
                        SystemProgramTransactionEvents {
                            signature,
                            transaction_index: i as u32,
                            events,
                        },
                    );
                }
            },
            Err(_) => {},
        }
        i += 1;
        proof {
            let txs = txs_view(transactions@);
            assert(txs_view(transactions@.take(i as int)).drop_last() =~= txs_view(
                transactions@.take(i as int - 1),
            ));
            assert(txs_view(transactions@.take(i as int)).last() == transactions@[i as int - 1]@);
            assert(tx_events_list_view(out@) =~= block_events_spec(
                txs_view(transactions@.take(i as int)),
            ));
        }
    }
    proof {
        assert(transactions@.take(n as int) =~= transactions@);
    }
    out
}

} // verus!
