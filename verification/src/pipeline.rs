//! The validation gate from a raw intent/execution pair to a satisfying
//! trace with its public inputs, the packing of public inputs into field
//! elements for the transcript, and the wire responses. The proving backend commits to the
//! trace and runs the low-degree test; this module builds everything the
//! backend consumes and everything sent back on the wire.

use vstd::prelude::*;
use vstd::string::StringExecFns;

use crate::circuit::{
    commitment_word, spec_col_value, spec_commitment_word, spec_constraints_hold,
    spec_witness_validate, IntentExecutionAir, IntentExecutionWitness, Trace, FIELD_MODULUS,
    NUM_COLS, NUM_ROWS,
};
use crate::circuit::lemma_valid_trace_satisfies_constraints;
use crate::hashing::{hash_address, hash_pool_id, spec_string_hash};
use crate::types::{
    spec_validate, Execution, Intent, ProofResponse, PublicInputs, ValidationError, VerifyResponse,
};

verus! {

broadcast use vstd::array::group_array_axioms;

/// Number of field elements the public inputs pack into.
pub const NUM_PUBLIC_VALUES: usize = 26;

/// Everything a proving backend needs for one request: the witness, the
/// satisfying trace, and the public inputs bound into the transcript.
pub struct ProofArtifacts {
    pub witness: IntentExecutionWitness,
    pub trace: Trace,
    pub public_inputs: PublicInputs,
}

/// Builds the public inputs of an execution: the carried commitment, digests
/// of the pool and solver identifiers, and the cleartext output amount and
/// timestamp.
pub fn build_public_inputs(execution: &Execution) -> (r: PublicInputs)
    ensures
        r.intent_commitment@ == execution.intent_commitment@,
        r.pool_id_hash@ == spec_string_hash(execution.pool_id@),
        r.executed_output_amount == execution.executed_output_amount,
        r.solver_address_hash@ == spec_string_hash(execution.solver_address@),
        r.timestamp == execution.timestamp,
{
    PublicInputs {
        intent_commitment: execution.intent_commitment,
        pool_id_hash: hash_pool_id(execution.pool_id.as_str()),
        executed_output_amount: execution.executed_output_amount,
        solver_address_hash: hash_address(execution.solver_address.as_str()),
        timestamp: execution.timestamp,
    }
}

/// The authoritative proving gate: validates the pair, and only on success
/// builds the witness, the satisfying trace and the public inputs. No partial
/// artifact escapes on failure, and the returned trace always satisfies the
/// constraint system.
pub fn prepare_proof(intent: &Intent, execution: &Execution) -> (r: Result<
    ProofArtifacts,
    ValidationError,
>)
    ensures
        r is Ok <==> spec_validate(*execution, *intent) is Ok,
        r matches Err(e) ==> spec_validate(*execution, *intent) == Err::<(), ValidationError>(e),
        r matches Ok(a) ==> {
            &&& a.witness.input_amount == execution.executed_input_amount
            &&& a.witness.output_amount == execution.executed_output_amount
            &&& a.witness.min_output_amount == intent.min_output_amount
            &&& a.witness.max_input_amount == intent.input_amount
            &&& a.witness.timestamp == execution.timestamp
            &&& a.witness.deadline == intent.deadline
            &&& a.witness.commitment@ == execution.intent_commitment@
            &&& a.witness.pool_id_hash@ == spec_string_hash(execution.pool_id@)
            &&& spec_witness_validate(a.witness) is Ok
            &&& a.trace.wf()
            &&& forall|row: int, col: int|
                0 <= row < NUM_ROWS && 0 <= col < NUM_COLS ==> a.trace.spec_cell(row, col)
                    == spec_col_value(a.witness, col)
            &&& spec_constraints_hold(a.trace)
            &&& a.public_inputs.intent_commitment@ == execution.intent_commitment@
            &&& a.public_inputs.pool_id_hash@ == spec_string_hash(execution.pool_id@)
            &&& a.public_inputs.executed_output_amount == execution.executed_output_amount
            &&& a.public_inputs.solver_address_hash@ == spec_string_hash(
                execution.solver_address@,
            )
            &&& a.public_inputs.timestamp == execution.timestamp
        },
{
    if let Err(e) = execution.validate_against_intent(intent) {
        return Err(e);
    }
    let witness = IntentExecutionWitness::new(
        execution.executed_input_amount,
        execution.executed_output_amount,
        intent.min_output_amount,
        intent.input_amount,
        execution.timestamp,
        intent.deadline,
        execution.intent_commitment,
        hash_pool_id(execution.pool_id.as_str()),
    );
    if let Err(e) = witness.validate() {
        assert(false);
        return Err(e);
    }
    let air = IntentExecutionAir::new();
    let trace = air.generate_trace(&witness);
    proof {
        lemma_valid_trace_satisfies_constraints(witness, trace);
    }
    let public_inputs = build_public_inputs(execution);
    Ok(ProofArtifacts { witness, trace, public_inputs })
}

/// The field element the given slot of the packed public-input vector holds:
/// eight words of the intent commitment, eight of the pool digest, the output
/// amount, eight words of the solver digest, and the timestamp, each reduced
/// into the field.
pub open spec fn spec_public_value(p: PublicInputs, idx: int) -> int {
    if 0 <= idx < 8 {
        spec_commitment_word(p.intent_commitment@, idx) % (FIELD_MODULUS as int)
    } else if 8 <= idx < 16 {
        spec_commitment_word(p.pool_id_hash@, idx - 8) % (FIELD_MODULUS as int)
    } else if idx == 16 {
        p.executed_output_amount as int % (FIELD_MODULUS as int)
    } else if 17 <= idx < 25 {
        spec_commitment_word(p.solver_address_hash@, idx - 17) % (FIELD_MODULUS as int)
    } else {
        p.timestamp as int % (FIELD_MODULUS as int)
    }
}

/// Appends the eight reduced words of a digest.
fn push_digest_words(dst: &mut Vec<u64>, bytes: &[u8; 32])
    ensures
        final(dst)@.len() == old(dst)@.len() + 8,
        forall|m: int| 0 <= m < old(dst)@.len() ==> final(dst)@[m] == old(dst)@[m],
        forall|m: int|
            0 <= m < 8 ==> final(dst)@[old(dst)@.len() + m] == spec_commitment_word(bytes@, m) % (
            FIELD_MODULUS as int),
{
    let mut k: usize = 0;
    while k < 8
        invariant
            k <= 8,
            dst@.len() == old(dst)@.len() + k,
            forall|m: int| 0 <= m < old(dst)@.len() ==> dst@[m] == old(dst)@[m],
            forall|m: int|
                0 <= m < k ==> dst@[old(dst)@.len() + m] == spec_commitment_word(bytes@, m) % (
                FIELD_MODULUS as int),
        decreases 8 - k,
    {
        let word = commitment_word(bytes, k);
        dst.push(word % FIELD_MODULUS);
        k = k + 1;
    }
}

/// Packs the public inputs into the fixed-length vector of field elements
/// that both the prover's and the verifier's transcripts observe.
pub fn public_values_vector(p: &PublicInputs) -> (r: Vec<u64>)
    ensures
        r@.len() == NUM_PUBLIC_VALUES,
        forall|idx: int| 0 <= idx < NUM_PUBLIC_VALUES ==> r@[idx] == spec_public_value(*p, idx),
        forall|idx: int| 0 <= idx < NUM_PUBLIC_VALUES ==> r@[idx] < FIELD_MODULUS,
{
    let mut values: Vec<u64> = Vec::new();
    push_digest_words(&mut values, &p.intent_commitment);
    push_digest_words(&mut values, &p.pool_id_hash);
    values.push(p.executed_output_amount % FIELD_MODULUS);
    push_digest_words(&mut values, &p.solver_address_hash);
    values.push(p.timestamp % FIELD_MODULUS);
    proof {
        assert forall|idx: int| 0 <= idx < NUM_PUBLIC_VALUES implies values@[idx]
            < FIELD_MODULUS by {
            assert(values@[idx] == spec_public_value(*p, idx));
        }
    }
    values
}

/// Assembles the successful proving response around the proof bytes the
/// backend produced.
pub fn success_response(proof: Vec<u8>, public_inputs: PublicInputs) -> (r: ProofResponse)
    ensures
        r.proof@ == proof@,
        r.public_inputs == public_inputs,
        r.success,
        r.error is None,
{
    ProofResponse { proof, public_inputs, success: true, error: None }
}

/// Assembles the failed proving response: no proof bytes, zeroed public
/// inputs, and the failure's message.
pub fn failure_response(error: &ValidationError) -> (r: ProofResponse)
    ensures
        r.proof@.len() == 0,
        !r.success,
        r.error matches Some(m) && m@ == error.spec_message(),
        forall|i: int| 0 <= i < 32 ==> r.public_inputs.intent_commitment@[i] == 0,
        forall|i: int| 0 <= i < 32 ==> r.public_inputs.pool_id_hash@[i] == 0,
        forall|i: int| 0 <= i < 32 ==> r.public_inputs.solver_address_hash@[i] == 0,
        r.public_inputs.executed_output_amount == 0,
        r.public_inputs.timestamp == 0,
{
    ProofResponse {
        proof: Vec::new(),
        public_inputs: PublicInputs {
            intent_commitment: [0u8; 32],
            pool_id_hash: [0u8; 32],
            executed_output_amount: 0,
            solver_address_hash: [0u8; 32],
            timestamp: 0,
        },
        success: false,
        error: Some(error.message()),
    }
}

/// How a verification attempt ended: the proof could not be decoded at all,
/// it decoded but failed some check, or every check passed.
#[derive(Debug, Clone, Copy, PartialEq, Eq, Structural)]
pub enum ProofCheckOutcome {
    Undecodable,
    Rejected,
    Accepted,
}

/// Maps a verification outcome onto the wire response: `valid` only for an
/// accepted proof, and an error only for an undecodable one, so callers can
/// tell a rejected proof from a corrupt blob.
pub fn verify_verdict(outcome: ProofCheckOutcome) -> (r: VerifyResponse)
    ensures
        r.valid <==> outcome == ProofCheckOutcome::Accepted,
        r.error is Some <==> outcome == ProofCheckOutcome::Undecodable,
        r.error matches Some(m) ==> m@ == "Proof could not be decoded"@,
{
    match outcome {
        ProofCheckOutcome::Accepted => VerifyResponse { valid: true, error: None },
        ProofCheckOutcome::Rejected => VerifyResponse { valid: false, error: None },
        ProofCheckOutcome::Undecodable => VerifyResponse {
            valid: false,
            error: Some(String::from_str("Proof could not be decoded")),
        },
    }
}

} // verus!
