//! Request-level data model: intents, executions, public inputs, the wire
//! request/response shapes, and the validation error taxonomy.

use vstd::prelude::*;
use vstd::bytes::{spec_u16_to_le_bytes, spec_u64_to_le_bytes, u16_to_le_bytes, u64_to_le_bytes};
use vstd::string::StringExecFns;
use vstd::utf8::encode_utf8;

use crate::circuit::FIELD_MODULUS;
use crate::hashing::{bytes32_eq, sha256, sha256_of};

verus! {

/// A trading intent: what the user promises to supply and demands in return.
/// Immutable once created; its commitment is a digest over every field.
#[derive(Debug, Clone)]
pub struct Intent {
    pub input_token: String,
    pub output_token: String,
    pub input_amount: u64,
    pub min_output_amount: u64,
    pub max_slippage_bps: u16,
    pub deadline: u64,
    pub user_address: String,
}

/// A recorded trade execution produced by an off-protocol venue, claiming to
/// satisfy the intent whose commitment it carries.
#[derive(Debug, Clone)]
pub struct Execution {
    pub intent_commitment: [u8; 32],
    pub pool_id: String,
    pub executed_input_amount: u64,
    pub executed_output_amount: u64,
    pub execution_price: u64,
    pub timestamp: u64,
    pub solver_address: String,
}

/// The values handed to a verifier in the clear alongside a proof.
#[derive(Debug, Clone)]
pub struct PublicInputs {
    pub intent_commitment: [u8; 32],
    pub pool_id_hash: [u8; 32],
    pub executed_output_amount: u64,
    pub solver_address_hash: [u8; 32],
    pub timestamp: u64,
}

/// Body of a proving request.
#[derive(Debug, Clone)]
pub struct ProofRequest {
    pub intent: Intent,
    pub execution: Execution,
}

/// Body of a proving response.
#[derive(Debug, Clone)]
pub struct ProofResponse {
    pub proof: Vec<u8>,
    pub public_inputs: PublicInputs,
    pub success: bool,
    pub error: Option<String>,
}

/// Body of a verification request.
#[derive(Debug, Clone)]
pub struct VerifyRequest {
    pub proof: Vec<u8>,
    pub public_inputs: PublicInputs,
}

/// Body of a verification response.
#[derive(Debug, Clone)]
pub struct VerifyResponse {
    pub valid: bool,
    pub error: Option<String>,
}

/// Body of a health probe response.
#[derive(Debug, Clone)]
pub struct HealthResponse {
    pub status: String,
    pub version: String,
}

/// One tagged variant per way an execution can violate its intent, carrying
/// the offending values so that callers branch on kind instead of parsing
/// message text.
#[derive(Debug, Clone, Copy, PartialEq, Eq, Structural)]
pub enum ValidationError {
    ScalarOutOfField { value: u64 },
    OutputBelowMinimum { executed: u64, minimum: u64 },
    InputAboveMaximum { executed: u64, maximum: u64 },
    DeadlineExceeded { timestamp: u64, deadline: u64 },
    CommitmentMismatch,
}

/// The decimal digit character of a value below ten.
pub open spec fn spec_digit_char(d: nat) -> char {
    if d == 0 {
        '0'
    } else if d == 1 {
        '1'
    } else if d == 2 {
        '2'
    } else if d == 3 {
        '3'
    } else if d == 4 {
        '4'
    } else if d == 5 {
        '5'
    } else if d == 6 {
        '6'
    } else if d == 7 {
        '7'
    } else if d == 8 {
        '8'
    } else {
        '9'
    }
}

/// The decimal rendering of a number, most significant digit first.
pub open spec fn spec_decimal(n: nat) -> Seq<char>
    decreases n,
{
    if n < 10 {
        seq![spec_digit_char(n)]
    } else {
        spec_decimal(n / 10).push(spec_digit_char(n % 10))
    }
}

fn digit_str(d: u64) -> (r: &'static str)
    requires
        d < 10,
    ensures
        r@ == seq![spec_digit_char(d as nat)],
{
    proof {
        reveal_strlit("0");
        reveal_strlit("1");
        reveal_strlit("2");
        reveal_strlit("3");
        reveal_strlit("4");
        reveal_strlit("5");
        reveal_strlit("6");
        reveal_strlit("7");
        reveal_strlit("8");
        reveal_strlit("9");
        assert("0"@ =~= seq!['0']);
        assert("1"@ =~= seq!['1']);
        assert("2"@ =~= seq!['2']);
        assert("3"@ =~= seq!['3']);
        assert("4"@ =~= seq!['4']);
        assert("5"@ =~= seq!['5']);
        assert("6"@ =~= seq!['6']);
        assert("7"@ =~= seq!['7']);
        assert("8"@ =~= seq!['8']);
        assert("9"@ =~= seq!['9']);
    }
    if d == 0 {
        "0"
    } else if d == 1 {
        "1"
    } else if d == 2 {
        "2"
    } else if d == 3 {
        "3"
    } else if d == 4 {
        "4"
    } else if d == 5 {
        "5"
    } else if d == 6 {
        "6"
    } else if d == 7 {
        "7"
    } else if d == 8 {
        "8"
    } else {
        "9"
    }
}

/// Renders a number in decimal, so error messages can cite the offending
/// values exactly.
pub fn decimal_string(n: u64) -> (r: String)
    ensures
        r@ == spec_decimal(n as nat),
    decreases n,
{
    if n < 10 {
        String::from_str(digit_str(n))
    } else {
        let mut prefix = decimal_string(n / 10);
        prefix.append(digit_str(n % 10));
        proof {
            assert(spec_decimal((n / 10) as nat) + seq![spec_digit_char((n % 10) as nat)]
                =~= spec_decimal(n as nat));
        }
        prefix
    }
}

impl ValidationError {
    /// The human-readable reason for each failure kind, citing the offending
    /// values.
    pub open spec fn spec_message(self) -> Seq<char> {
        match self {
            ValidationError::ScalarOutOfField { value } => "Scalar value "@ + spec_decimal(
                value as nat,
            ) + " exceeds the field modulus"@,
            ValidationError::OutputBelowMinimum { executed, minimum } => "Output amount "@
                + spec_decimal(executed as nat) + " is below minimum "@ + spec_decimal(
                minimum as nat,
            ),
            ValidationError::InputAboveMaximum { executed, maximum } => "Input amount "@
                + spec_decimal(executed as nat) + " exceeds intent amount "@ + spec_decimal(
                maximum as nat,
            ),
            ValidationError::DeadlineExceeded { timestamp, deadline } => "Execution timestamp "@
                + spec_decimal(timestamp as nat) + " exceeds deadline "@ + spec_decimal(
                deadline as nat,
            ),
            ValidationError::CommitmentMismatch => "Intent commitment mismatch"@,
        }
    }

    /// Renders the failure: the rule that broke and the values that broke it.
    pub fn message(&self) -> (r: String)
        ensures
            r@ == self.spec_message(),
    {
        match self {
            ValidationError::ScalarOutOfField { value } => {
                let mut s = String::from_str("Scalar value ");
                s.append(decimal_string(*value).as_str());
                s.append(" exceeds the field modulus");
                proof {
                    assert(s@ =~= self.spec_message());
                }
                s
            },
            ValidationError::OutputBelowMinimum { executed, minimum } => {
                let mut s = String::from_str("Output amount ");
                s.append(decimal_string(*executed).as_str());
                s.append(" is below minimum ");
                s.append(decimal_string(*minimum).as_str());
                proof {
                    assert(s@ =~= self.spec_message());
                }
                s
            },
            ValidationError::InputAboveMaximum { executed, maximum } => {
                let mut s = String::from_str("Input amount ");
                s.append(decimal_string(*executed).as_str());
                s.append(" exceeds intent amount ");
                s.append(decimal_string(*maximum).as_str());
                proof {
                    assert(s@ =~= self.spec_message());
                }
                s
            },
            ValidationError::DeadlineExceeded { timestamp, deadline } => {
                let mut s = String::from_str("Execution timestamp ");
                s.append(decimal_string(*timestamp).as_str());
                s.append(" exceeds deadline ");
                s.append(decimal_string(*deadline).as_str());
                proof {
                    assert(s@ =~= self.spec_message());
                }
                s
            },
            ValidationError::CommitmentMismatch => String::from_str("Intent commitment mismatch"),
        }
    }
}

/// The serialized form of an intent that the commitment digests: every field,
/// strings as UTF-8 bytes and quantities in little-endian byte order.
pub open spec fn spec_intent_message(i: Intent) -> Seq<u8> {
    encode_utf8(i.input_token@) + encode_utf8(i.output_token@)
        + spec_u64_to_le_bytes(i.input_amount) + spec_u64_to_le_bytes(i.min_output_amount)
        + spec_u16_to_le_bytes(i.max_slippage_bps) + spec_u64_to_le_bytes(i.deadline)
        + encode_utf8(i.user_address@)
}

/// The intent commitment: two hashing rounds over the serialized fields, so
/// the outer digest is taken of a fixed-length value.
pub open spec fn spec_commitment(i: Intent) -> Seq<u8> {
    sha256_of(sha256_of(spec_intent_message(i)))
}

/// Appends every byte of `src` to `dst`.
fn push_bytes(dst: &mut Vec<u8>, src: &[u8])
    ensures
        final(dst)@ == old(dst)@ + src@,
{
    let mut i: usize = 0;
    while i < src.len()
        invariant
            i <= src.len(),
            dst@ == old(dst)@ + src@.subrange(0, i as int),
        decreases src.len() - i,
    {
        dst.push(src[i]);
        proof {
            assert(old(dst)@ + src@.subrange(0, i as int) + seq![src@[i as int]] =~= old(dst)@
                + src@.subrange(0, i + 1));
        }
        i = i + 1;
    }
    proof {
        assert(src@.subrange(0, src@.len() as int) =~= src@);
    }
}

impl Intent {
    /// The deterministic, collision-resistant digest binding an execution to
    /// this intent: same field values give the same commitment.
    pub fn compute_commitment(&self) -> (r: [u8; 32])
        ensures
            r@ == spec_commitment(*self),
    {
        let mut message: Vec<u8> = Vec::new();
        push_bytes(&mut message, self.input_token.as_str().as_bytes());
        push_bytes(&mut message, self.output_token.as_str().as_bytes());
        let input_amount_bytes = u64_to_le_bytes(self.input_amount);
        push_bytes(&mut message, input_amount_bytes.as_slice());
        let min_output_bytes = u64_to_le_bytes(self.min_output_amount);
        push_bytes(&mut message, min_output_bytes.as_slice());
        let slippage_bytes = u16_to_le_bytes(self.max_slippage_bps);
        push_bytes(&mut message, slippage_bytes.as_slice());
        let deadline_bytes = u64_to_le_bytes(self.deadline);
        push_bytes(&mut message, deadline_bytes.as_slice());
        push_bytes(&mut message, self.user_address.as_str().as_bytes());
        proof {
            assert(message@ =~= spec_intent_message(*self));
        }
        let first = sha256(message.as_slice());
        sha256(first.as_slice())
    }
}

/// What validating an execution against an intent returns. Every scalar fed
/// into the witness must lie strictly below the field modulus — a value at or
/// above it would alias under the field reduction and corrupt the algebraic
/// meaning of a comparison, so it is rejected rather than wrapped. After the
/// range rule, the four pair rules in order: output reaches the minimum,
/// input stays within the budget, the timestamp meets the deadline, and the
/// carried commitment matches the recomputed one.
pub open spec fn spec_validate(e: Execution, i: Intent) -> Result<(), ValidationError> {
    if e.executed_input_amount >= FIELD_MODULUS {
        Err(ValidationError::ScalarOutOfField { value: e.executed_input_amount })
    } else if e.executed_output_amount >= FIELD_MODULUS {
        Err(ValidationError::ScalarOutOfField { value: e.executed_output_amount })
    } else if i.min_output_amount >= FIELD_MODULUS {
        Err(ValidationError::ScalarOutOfField { value: i.min_output_amount })
    } else if i.input_amount >= FIELD_MODULUS {
        Err(ValidationError::ScalarOutOfField { value: i.input_amount })
    } else if e.timestamp >= FIELD_MODULUS {
        Err(ValidationError::ScalarOutOfField { value: e.timestamp })
    } else if i.deadline >= FIELD_MODULUS {
        Err(ValidationError::ScalarOutOfField { value: i.deadline })
    } else if e.executed_output_amount < i.min_output_amount {
        Err(ValidationError::OutputBelowMinimum {
            executed: e.executed_output_amount,
            minimum: i.min_output_amount,
        })
    } else if e.executed_input_amount > i.input_amount {
        Err(ValidationError::InputAboveMaximum {
            executed: e.executed_input_amount,
            maximum: i.input_amount,
        })
    } else if e.timestamp > i.deadline {
        Err(ValidationError::DeadlineExceeded { timestamp: e.timestamp, deadline: i.deadline })
    } else if e.intent_commitment@ != spec_commitment(i) {
        Err(ValidationError::CommitmentMismatch)
    } else {
        Ok(())
    }
}

impl Execution {
    /// The authoritative gate: accepts exactly the executions whose scalars
    /// all lie in the field and that satisfy every numeric, temporal and
    /// commitment rule of the intent. Any commitment mismatch is rejected
    /// regardless of the numeric fields.
    pub fn validate_against_intent(&self, intent: &Intent) -> (r: Result<(), ValidationError>)
        ensures
            r == spec_validate(*self, *intent),
            self.intent_commitment@ != spec_commitment(*intent) ==> r is Err,
            r is Ok <==> {
                &&& self.executed_input_amount < FIELD_MODULUS
                &&& self.executed_output_amount < FIELD_MODULUS
                &&& intent.min_output_amount < FIELD_MODULUS
                &&& intent.input_amount < FIELD_MODULUS
                &&& self.timestamp < FIELD_MODULUS
                &&& intent.deadline < FIELD_MODULUS
                &&& self.executed_output_amount >= intent.min_output_amount
                &&& self.executed_input_amount <= intent.input_amount
                &&& self.timestamp <= intent.deadline
                &&& self.intent_commitment@ == spec_commitment(*intent)
            },
    {
        if self.executed_input_amount >= FIELD_MODULUS {
            return Err(ValidationError::ScalarOutOfField { value: self.executed_input_amount });
        }
        if self.executed_output_amount >= FIELD_MODULUS {
            return Err(ValidationError::ScalarOutOfField { value: self.executed_output_amount });
        }
        if intent.min_output_amount >= FIELD_MODULUS {
            return Err(ValidationError::ScalarOutOfField { value: intent.min_output_amount });
        }
        if intent.input_amount >= FIELD_MODULUS {
            return Err(ValidationError::ScalarOutOfField { value: intent.input_amount });
        }
        if self.timestamp >= FIELD_MODULUS {
            return Err(ValidationError::ScalarOutOfField { value: self.timestamp });
        }
        if intent.deadline >= FIELD_MODULUS {
            return Err(ValidationError::ScalarOutOfField { value: intent.deadline });
        }
        if self.executed_output_amount < intent.min_output_amount {
            return Err(ValidationError::OutputBelowMinimum {
                executed: self.executed_output_amount,
                minimum: intent.min_output_amount,
            });
        }
        if self.executed_input_amount > intent.input_amount {
            return Err(ValidationError::InputAboveMaximum {
                executed: self.executed_input_amount,
                maximum: intent.input_amount,
            });
        }
        if self.timestamp > intent.deadline {
            return Err(ValidationError::DeadlineExceeded {
                timestamp: self.timestamp,
                deadline: intent.deadline,
            });
        }
        let expected_commitment = intent.compute_commitment();
        if !bytes32_eq(&self.intent_commitment, &expected_commitment) {
            return Err(ValidationError::CommitmentMismatch);
        }
        Ok(())
    }
}

/// Commitment determinism: the commitment depends on the intent's field
/// values alone, so two intents that agree on every field share it.
pub proof fn lemma_commitment_deterministic(a: Intent, b: Intent)
    requires
        a.input_token@ == b.input_token@,
        a.output_token@ == b.output_token@,
        a.input_amount == b.input_amount,
        a.min_output_amount == b.min_output_amount,
        a.max_slippage_bps == b.max_slippage_bps,
        a.deadline == b.deadline,
        a.user_address@ == b.user_address@,
    ensures
        spec_commitment(a) == spec_commitment(b),
{
}

/// Commitment binding: an execution whose carried commitment differs from the
/// recomputed commitment of the paired intent is always rejected, whatever its
/// numeric fields hold.
pub proof fn lemma_commitment_binding(e: Execution, i: Intent)
    requires
        e.intent_commitment@ != spec_commitment(i),
    ensures
        spec_validate(e, i) is Err,
{
}

} // verus!
