use p3_air::{Air, AirBuilder, BaseAir, WindowAccess};
use p3_baby_bear::{default_babybear_poseidon2_16, BabyBear, Poseidon2BabyBear};
use p3_challenger::DuplexChallenger;
use p3_commit::ExtensionMmcs;
use p3_dft::Radix2DitParallel;
use p3_field::extension::BinomialExtensionField;
use p3_field::{Field, PrimeCharacteristicRing};
use p3_fri::{FriParameters, TwoAdicFriPcs};
use p3_matrix::dense::RowMajorMatrix;
use p3_merkle_tree::MerkleTreeMmcs;
use p3_symmetric::{PaddingFreeSponge, TruncatedPermutation};
use p3_uni_stark::{prove, verify, Proof, StarkConfig};

use zk_intent_prover::circuit::NUM_COLS;
use zk_intent_prover::pipeline::{
    failure_response, prepare_proof, public_values_vector, success_response, verify_verdict,
    ProofCheckOutcome, NUM_PUBLIC_VALUES,
};
use zk_intent_prover::types::{Execution, Intent, ProofResponse, PublicInputs, VerifyResponse};

/// The proving backend's view of the constraint system, mirroring the
/// verified `IntentExecutionAir::eval` column for column.
struct BackendAir;

impl<F> BaseAir<F> for BackendAir {
    fn width(&self) -> usize {
        NUM_COLS
    }

    fn num_public_values(&self) -> usize {
        NUM_PUBLIC_VALUES
    }
}

impl<AB: AirBuilder> Air<AB> for BackendAir {
    fn eval(&self, builder: &mut AB) {
        let main = builder.main();
        let local = main.current_slice();
        let input_amount = local[0];
        let output_amount = local[1];
        let min_output = local[2];
        let max_input = local[3];
        let output_ok = local[14];
        let input_ok = local[15];

        builder.assert_bool(output_ok);
        builder.assert_bool(input_ok);

        let output_diff = output_amount - min_output;
        builder
            .when(output_ok)
            .assert_zero(output_diff * (AB::Expr::ONE - output_ok.into()));

        let input_diff = max_input - input_amount;
        builder
            .when(input_ok)
            .assert_zero(input_diff * (AB::Expr::ONE - input_ok.into()));

        builder.assert_one(output_ok);
        builder.assert_one(input_ok);
    }
}

type Val = BabyBear;
type Perm = Poseidon2BabyBear<16>;
type FieldHash = PaddingFreeSponge<Perm, 16, 8, 8>;
type Compress = TruncatedPermutation<Perm, 2, 8, 16>;
type ValMmcs =
    MerkleTreeMmcs<<Val as Field>::Packing, <Val as Field>::Packing, FieldHash, Compress, 2, 8>;
type Challenge = BinomialExtensionField<Val, 4>;
type ChallengeMmcs = ExtensionMmcs<Val, Challenge, ValMmcs>;
type Challenger = DuplexChallenger<Val, Perm, 16, 8>;
type Dft = Radix2DitParallel<Val>;
type Pcs = TwoAdicFriPcs<Val, Dft, ValMmcs, ChallengeMmcs>;
type Config = StarkConfig<Pcs, Challenge, Challenger>;

fn make_config() -> Config {
    let perm = default_babybear_poseidon2_16();
    let hash = FieldHash::new(perm.clone());
    let compress = Compress::new(perm.clone());
    let val_mmcs = ValMmcs::new(hash, compress, 0);
    let challenge_mmcs = ChallengeMmcs::new(val_mmcs.clone());
    let dft = Dft::default();
    let fri_params = FriParameters {
        log_blowup: 1,
        log_final_poly_len: 0,
        max_log_arity: 1,
        num_queries: 100,
        batch_proof_of_work_bits: 0,
        commit_proof_of_work_bits: 0,
        query_proof_of_work_bits: 16,
        mmcs: challenge_mmcs,
    };
    let pcs = Pcs::new(dft, val_mmcs, fri_params);
    let challenger = Challenger::new(perm);
    Config::new(pcs, challenger)
}

fn field_public_values(public_inputs: &PublicInputs) -> Vec<Val> {
    public_values_vector(public_inputs)
        .iter()
        .map(|&v| Val::from_u64(v))
        .collect()
}

fn run_generate(intent: &Intent, execution: &Execution) -> ProofResponse {
    match prepare_proof(intent, execution) {
        Err(e) => failure_response(&e),
        Ok(artifacts) => {
            let config = make_config();
            let cells: Vec<Val> = artifacts
                .trace
                .values
                .iter()
                .map(|&v| Val::from_u64(v))
                .collect();
            let matrix = RowMajorMatrix::new(cells, NUM_COLS);
            let publics = field_public_values(&artifacts.public_inputs);
            let proof =
                prove(&config, &BackendAir, matrix, &publics).expect("proving should succeed");
            let bytes = serde_json::to_vec(&proof).expect("proof should encode");
            success_response(bytes, artifacts.public_inputs)
        }
    }
}

fn run_verify(proof_bytes: &[u8], public_inputs: &PublicInputs) -> VerifyResponse {
    let config = make_config();
    let publics = field_public_values(public_inputs);
    let outcome = match serde_json::from_slice::<Proof<Config>>(proof_bytes) {
        Err(_) => ProofCheckOutcome::Undecodable,
        Ok(proof) => match verify(&config, &BackendAir, &proof, &publics) {
            Ok(()) => ProofCheckOutcome::Accepted,
            Err(_) => ProofCheckOutcome::Rejected,
        },
    };
    verify_verdict(outcome)
}

fn create_test_intent() -> Intent {
    Intent {
        input_token: "SUI".to_string(),
        output_token: "USDC".to_string(),
        input_amount: 1000000000,
        min_output_amount: 950000000,
        max_slippage_bps: 50,
        deadline: 2000000000,
        user_address: "0x1234".to_string(),
    }
}

fn create_test_execution(intent: &Intent) -> Execution {
    Execution {
        intent_commitment: intent.compute_commitment(),
        pool_id: "0xpool".to_string(),
        executed_input_amount: 1000000000,
        executed_output_amount: 960000000,
        execution_price: 960000,
        timestamp: 1000000,
        solver_address: "0xsolver".to_string(),
    }
}

#[test]
fn test_proof_generation() {
    let intent = create_test_intent();
    let execution = create_test_execution(&intent);

    let response = run_generate(&intent, &execution);
    assert!(response.success);
    assert!(!response.proof.is_empty());
}

#[test]
fn test_proof_verification() {
    let intent = create_test_intent();
    let execution = create_test_execution(&intent);

    let response = run_generate(&intent, &execution);
    assert!(response.success);
    let verdict = run_verify(&response.proof, &response.public_inputs);
    assert!(verdict.valid);
    assert!(verdict.error.is_none());
}

#[test]
fn generation_fails_on_an_invalid_pair() {
    let intent = create_test_intent();
    let mut execution = create_test_execution(&intent);
    execution.executed_output_amount = 1;
    let response = run_generate(&intent, &execution);
    assert!(!response.success);
    assert!(response.proof.is_empty());
    assert!(response.error.is_some());
}

#[test]
fn a_flipped_proof_bit_never_verifies() {
    let intent = create_test_intent();
    let execution = create_test_execution(&intent);
    let response = run_generate(&intent, &execution);
    assert!(response.success);

    let mut checked = 0;
    for position in 0..response.proof.len().min(400) {
        let mut tampered = response.proof.clone();
        tampered[position] ^= 1;
        let verdict = run_verify(&tampered, &response.public_inputs);
        assert!(!verdict.valid);
        if verdict.error.is_none() {
            // The tampered proof still decoded, so the rejection came from the
            // verification checks themselves.
            checked += 1;
            if checked >= 3 {
                break;
            }
        }
    }
    assert!(checked > 0);
}

#[test]
fn tampered_public_inputs_never_verify() {
    let intent = create_test_intent();
    let execution = create_test_execution(&intent);
    let response = run_generate(&intent, &execution);
    assert!(response.success);

    let mut tampered = response.public_inputs.clone();
    tampered.timestamp += 1;
    let verdict = run_verify(&response.proof, &tampered);
    assert!(!verdict.valid);

    let mut tampered = response.public_inputs.clone();
    tampered.executed_output_amount -= 1;
    let verdict = run_verify(&response.proof, &tampered);
    assert!(!verdict.valid);

    let mut tampered = response.public_inputs.clone();
    tampered.intent_commitment[0] ^= 1;
    let verdict = run_verify(&response.proof, &tampered);
    assert!(!verdict.valid);
}

#[test]
fn an_empty_proof_is_undecodable_not_valid() {
    let intent = create_test_intent();
    let execution = create_test_execution(&intent);
    let response = run_generate(&intent, &execution);
    let verdict = run_verify(&[], &response.public_inputs);
    assert!(!verdict.valid);
    assert!(verdict.error.is_some());
}
