//! The constraint system: the witness carrying field-representable scalars,
//! the fixed-shape execution trace, the column layout, and the algebraic
//! constraints a valid trace must satisfy.
//!
//! Scalars live in the prime field of order `FIELD_MODULUS` (the 31-bit
//! "baby bear" prime used by the proving backend). A trace holds one checked
//! event replicated across all `NUM_ROWS` rows; sizing rows to the number of
//! distinct events is a known scaling limitation of this shape.

use vstd::prelude::*;
use vstd::arithmetic::div_mod::lemma_mod_add_multiples_vanish;

use crate::types::ValidationError;

verus! {

/// Width of the trace: six scalar columns, eight commitment-word columns and
/// two boolean flag columns.
pub const NUM_COLS: usize = 16;

/// Fixed row count of the trace.
pub const NUM_ROWS: usize = 16;

/// The field's prime modulus, 2^31 - 2^27 + 1. Every scalar fed into a
/// witness must lie strictly below it: a value at or above it would alias
/// under the field reduction and corrupt the algebraic meaning of a
/// comparison, so validation rejects such a value rather than wrap it. Only
/// the commitment-word cells, which repack digest bytes, are reduced.
pub const FIELD_MODULUS: u64 = 2013265921;

/// The field-element-ready projection of one validated intent/execution pair.
#[derive(Debug, Clone)]
pub struct IntentExecutionWitness {
    pub input_amount: u64,
    pub output_amount: u64,
    pub min_output_amount: u64,
    pub max_input_amount: u64,
    pub timestamp: u64,
    pub deadline: u64,
    pub commitment: [u8; 32],
    pub pool_id_hash: [u8; 32],
}

/// What validating a witness returns: every scalar strictly below the field
/// modulus, then the three numeric rules, in order.
pub open spec fn spec_witness_validate(w: IntentExecutionWitness) -> Result<(), ValidationError> {
    if w.input_amount >= FIELD_MODULUS {
        Err(ValidationError::ScalarOutOfField { value: w.input_amount })
    } else if w.output_amount >= FIELD_MODULUS {
        Err(ValidationError::ScalarOutOfField { value: w.output_amount })
    } else if w.min_output_amount >= FIELD_MODULUS {
        Err(ValidationError::ScalarOutOfField { value: w.min_output_amount })
    } else if w.max_input_amount >= FIELD_MODULUS {
        Err(ValidationError::ScalarOutOfField { value: w.max_input_amount })
    } else if w.timestamp >= FIELD_MODULUS {
        Err(ValidationError::ScalarOutOfField { value: w.timestamp })
    } else if w.deadline >= FIELD_MODULUS {
        Err(ValidationError::ScalarOutOfField { value: w.deadline })
    } else if w.output_amount < w.min_output_amount {
        Err(ValidationError::OutputBelowMinimum {
            executed: w.output_amount,
            minimum: w.min_output_amount,
        })
    } else if w.input_amount > w.max_input_amount {
        Err(ValidationError::InputAboveMaximum {
            executed: w.input_amount,
            maximum: w.max_input_amount,
        })
    } else if w.timestamp > w.deadline {
        Err(ValidationError::DeadlineExceeded { timestamp: w.timestamp, deadline: w.deadline })
    } else {
        Ok(())
    }
}

impl IntentExecutionWitness {
    pub fn new(
        input_amount: u64,
        output_amount: u64,
        min_output_amount: u64,
        max_input_amount: u64,
        timestamp: u64,
        deadline: u64,
        commitment: [u8; 32],
        pool_id_hash: [u8; 32],
    ) -> (r: Self)
        ensures
            r.input_amount == input_amount,
            r.output_amount == output_amount,
            r.min_output_amount == min_output_amount,
            r.max_input_amount == max_input_amount,
            r.timestamp == timestamp,
            r.deadline == deadline,
            r.commitment == commitment,
            r.pool_id_hash == pool_id_hash,
    {
        Self {
            input_amount,
            output_amount,
            min_output_amount,
            max_input_amount,
            timestamp,
            deadline,
            commitment,
            pool_id_hash,
        }
    }

    /// Rejects a witness with a scalar outside the field or one that violates
    /// any numeric rule; a witness built from a validated pair always passes.
    pub fn validate(&self) -> (r: Result<(), ValidationError>)
        ensures
            r == spec_witness_validate(*self),
            r is Ok <==> {
                &&& self.input_amount < FIELD_MODULUS
                &&& self.output_amount < FIELD_MODULUS
                &&& self.min_output_amount < FIELD_MODULUS
                &&& self.max_input_amount < FIELD_MODULUS
                &&& self.timestamp < FIELD_MODULUS
                &&& self.deadline < FIELD_MODULUS
                &&& self.output_amount >= self.min_output_amount
                &&& self.input_amount <= self.max_input_amount
                &&& self.timestamp <= self.deadline
            },
    {
        if self.input_amount >= FIELD_MODULUS {
            return Err(ValidationError::ScalarOutOfField { value: self.input_amount });
        }
        if self.output_amount >= FIELD_MODULUS {
            return Err(ValidationError::ScalarOutOfField { value: self.output_amount });
        }
        if self.min_output_amount >= FIELD_MODULUS {
            return Err(ValidationError::ScalarOutOfField { value: self.min_output_amount });
        }
        if self.max_input_amount >= FIELD_MODULUS {
            return Err(ValidationError::ScalarOutOfField { value: self.max_input_amount });
        }
        if self.timestamp >= FIELD_MODULUS {
            return Err(ValidationError::ScalarOutOfField { value: self.timestamp });
        }
        if self.deadline >= FIELD_MODULUS {
            return Err(ValidationError::ScalarOutOfField { value: self.deadline });
        }
        if self.output_amount < self.min_output_amount {
            return Err(ValidationError::OutputBelowMinimum {
                executed: self.output_amount,
                minimum: self.min_output_amount,
            });
        }
        if self.input_amount > self.max_input_amount {
            return Err(ValidationError::InputAboveMaximum {
                executed: self.input_amount,
                maximum: self.max_input_amount,
            });
        }
        if self.timestamp > self.deadline {
            return Err(ValidationError::DeadlineExceeded {
                timestamp: self.timestamp,
                deadline: self.deadline,
            });
        }
        Ok(())
    }
}

/// The row-major matrix of field elements the proving backend commits to.
pub struct Trace {
    pub values: Vec<u64>,
}

impl Trace {
    /// Shape and field-range invariant: exactly `NUM_ROWS` rows of `NUM_COLS`
    /// cells, every cell a canonical field element.
    pub open spec fn wf(self) -> bool {
        &&& self.values@.len() == NUM_ROWS * NUM_COLS
        &&& forall|k: int| 0 <= k < self.values@.len() ==> self.values@[k] < FIELD_MODULUS
    }

    pub open spec fn spec_cell(self, row: int, col: int) -> u64 {
        self.values@[row * NUM_COLS + col]
    }

    pub fn width(&self) -> (r: usize)
        ensures
            r == NUM_COLS,
    {
        NUM_COLS
    }

    pub fn height(&self) -> (r: usize)
        requires
            self.wf(),
        ensures
            r == NUM_ROWS,
    {
        assert(self.values@.len() == NUM_ROWS * NUM_COLS);
        self.values.len() / NUM_COLS
    }

    pub fn cell(&self, row: usize, col: usize) -> (r: u64)
        requires
            self.wf(),
            row < NUM_ROWS,
            col < NUM_COLS,
        ensures
            r == self.spec_cell(row as int, col as int),
            r < FIELD_MODULUS,
    {
        self.values[row * NUM_COLS + col]
    }
}

/// The big-endian packing of four consecutive commitment bytes into the
/// `k`-th 32-bit word.
pub open spec fn spec_commitment_word(bytes: Seq<u8>, k: int) -> int {
    bytes[4 * k] * 0x1000000 + bytes[4 * k + 1] * 0x10000 + bytes[4 * k + 2] * 0x100 + bytes[4 * k
        + 3]
}

/// Packs four consecutive bytes of a digest into its `k`-th big-endian word.
pub fn commitment_word(bytes: &[u8; 32], k: usize) -> (r: u64)
    requires
        k < 8,
    ensures
        r == spec_commitment_word(bytes@, k as int),
        r < 0x100000000,
{
    (bytes[4 * k] as u64) * 0x1000000 + (bytes[4 * k + 1] as u64) * 0x10000 + (bytes[4 * k
        + 2] as u64) * 0x100 + (bytes[4 * k + 3] as u64)
}

/// The value every row of the trace holds in the given column: columns 0-5
/// the six scalars, held exactly (validation admits only scalars below the
/// field modulus); columns 6-13 the commitment words, reduced into the field;
/// columns 14-15 the boolean comparison flags evaluated from the witness's
/// own scalars.
pub open spec fn spec_col_value(w: IntentExecutionWitness, col: int) -> int {
    if col == 0 {
        w.input_amount as int
    } else if col == 1 {
        w.output_amount as int
    } else if col == 2 {
        w.min_output_amount as int
    } else if col == 3 {
        w.max_input_amount as int
    } else if col == 4 {
        w.timestamp as int
    } else if col == 5 {
        w.deadline as int
    } else if 6 <= col < 14 {
        spec_commitment_word(w.commitment@, col - 6) % FIELD_MODULUS as int
    } else if col == 14 {
        if w.output_amount >= w.min_output_amount {
            1
        } else {
            0
        }
    } else {
        if w.input_amount <= w.max_input_amount {
            1
        } else {
            0
        }
    }
}

/// The constraint system over the trace. Stateless: the column layout and the
/// constraint polynomials are fixed.
pub struct IntentExecutionAir {}

impl Default for IntentExecutionAir {
    fn default() -> Self {
        Self::new()
    }
}

impl IntentExecutionAir {
    pub fn new() -> Self {
        IntentExecutionAir {}
    }

    /// Width of the traces this constraint system evaluates.
    pub fn width(&self) -> (r: usize)
        ensures
            r == NUM_COLS,
    {
        NUM_COLS
    }

    /// Materializes the trace: one event from the witness, replicated across
    /// every row. Pure: the same witness gives the identical trace. Only a
    /// witness whose scalars already lie in the field is admitted; validation
    /// rejects the others, so no out-of-range scalar ever reaches a trace.
    pub fn generate_trace(&self, witness: &IntentExecutionWitness) -> (r: Trace)
        requires
            witness.input_amount < FIELD_MODULUS,
            witness.output_amount < FIELD_MODULUS,
            witness.min_output_amount < FIELD_MODULUS,
            witness.max_input_amount < FIELD_MODULUS,
            witness.timestamp < FIELD_MODULUS,
            witness.deadline < FIELD_MODULUS,
        ensures
            r.wf(),
            forall|row: int, col: int|
                0 <= row < NUM_ROWS && 0 <= col < NUM_COLS ==> r.spec_cell(row, col)
                    == spec_col_value(*witness, col),
    {
        let mut row: Vec<u64> = Vec::new();
        row.push(witness.input_amount);
        row.push(witness.output_amount);
        row.push(witness.min_output_amount);
        row.push(witness.max_input_amount);
        row.push(witness.timestamp);
        row.push(witness.deadline);
        let mut k: usize = 0;
        while k < 8
            invariant
                k <= 8,
                row@.len() == 6 + k,
                forall|c: int| 0 <= c < 6 ==> row@[c] == spec_col_value(*witness, c),
                forall|c: int| 6 <= c < 6 + k ==> row@[c] == spec_col_value(*witness, c),
            decreases 8 - k,
        {
            let word: u64 = commitment_word(&witness.commitment, k);
            row.push(word % FIELD_MODULUS);
            k = k + 1;
        }
        row.push(
            if witness.output_amount >= witness.min_output_amount {
                1
            } else {
                0
            },
        );
        row.push(
            if witness.input_amount <= witness.max_input_amount {
                1
            } else {
                0
            },
        );
        assert(forall|c: int| 0 <= c < NUM_COLS ==> row@[c] == spec_col_value(*witness, c));
        assert forall|c: int| 0 <= c < NUM_COLS implies row@[c] < FIELD_MODULUS by {
            assert(row@[c] == spec_col_value(*witness, c));
        }
        let mut values: Vec<u64> = Vec::new();
        let mut i: usize = 0;
        while i < NUM_ROWS
            invariant
                i <= NUM_ROWS,
                row@.len() == NUM_COLS,
                forall|c: int| 0 <= c < NUM_COLS ==> row@[c] == spec_col_value(*witness, c),
                forall|c: int| 0 <= c < NUM_COLS ==> row@[c] < FIELD_MODULUS,
                values@.len() == i * NUM_COLS,
                forall|k2: int|
                    0 <= k2 < values@.len() ==> values@[k2] == row@[k2 % (NUM_COLS as int)],
            decreases NUM_ROWS - i,
        {
            let mut j: usize = 0;
            while j < NUM_COLS
                invariant
                    j <= NUM_COLS,
                    row@.len() == NUM_COLS,
                    values@.len() == i * NUM_COLS + j,
                    i < NUM_ROWS,
                    forall|k2: int|
                        0 <= k2 < values@.len() ==> values@[k2] == row@[k2 % (NUM_COLS as int)],
                decreases NUM_COLS - j,
            {
                values.push(row[j]);
                proof {
                    lemma_mod_multiples_vanish_general(j as int, i as int, NUM_COLS as int);
                    vstd::arithmetic::div_mod::lemma_small_mod(j as nat, NUM_COLS as nat);
                    assert((i * NUM_COLS + j) % (NUM_COLS as int) == j);
                }
                j = j + 1;
            }
            i = i + 1;
        }
        let trace = Trace { values };
        proof {
            assert forall|r2: int, c: int| 0 <= r2 < NUM_ROWS && 0 <= c < NUM_COLS implies
                trace.spec_cell(r2, c) == spec_col_value(*witness, c) by {
                assert(trace.values@[r2 * NUM_COLS + c] == row@[(r2 * NUM_COLS + c) % (
                NUM_COLS as int)]);
                lemma_mod_multiples_vanish_general(c, r2, NUM_COLS as int);
            }
        }
        trace
    }
}

/// Field multiplication over the prime field.
pub open spec fn fmul(a: int, b: int) -> int {
    (a * b) % (FIELD_MODULUS as int)
}

/// Field subtraction over the prime field (Euclidean remainder, so the result
/// is the canonical representative).
pub open spec fn fsub(a: int, b: int) -> int {
    (a - b) % (FIELD_MODULUS as int)
}

fn fmul_exec(a: u64, b: u64) -> (r: u64)
    requires
        a < FIELD_MODULUS,
        b < FIELD_MODULUS,
    ensures
        r == fmul(a as int, b as int),
        r < FIELD_MODULUS,
{
    proof {
        assert(a * b < 0x4000000000000000) by (nonlinear_arith)
            requires
                a < FIELD_MODULUS,
                b < FIELD_MODULUS,
        ;
    }
    (a * b) % FIELD_MODULUS
}

fn fsub_exec(a: u64, b: u64) -> (r: u64)
    requires
        a < FIELD_MODULUS,
        b < FIELD_MODULUS,
    ensures
        r == fsub(a as int, b as int),
        r < FIELD_MODULUS,
{
    proof {
        lemma_mod_add_multiples_vanish(a as int - b as int, FIELD_MODULUS as int);
    }
    (a + FIELD_MODULUS - b) % FIELD_MODULUS
}

/// The constraint polynomials evaluated on one row: both flags boolean, each
/// flag's gated product with the corresponding signed difference zero, and
/// both flags forced to one.
pub open spec fn spec_row_ok(t: Trace, row: int) -> bool {
    let input_amount = t.spec_cell(row, 0) as int;
    let output_amount = t.spec_cell(row, 1) as int;
    let min_output = t.spec_cell(row, 2) as int;
    let max_input = t.spec_cell(row, 3) as int;
    let output_ok = t.spec_cell(row, 14) as int;
    let input_ok = t.spec_cell(row, 15) as int;
    &&& fmul(output_ok, fsub(1, output_ok)) == 0
    &&& fmul(input_ok, fsub(1, input_ok)) == 0
    &&& fmul(output_ok, fmul(fsub(output_amount, min_output), fsub(1, output_ok))) == 0
    &&& fmul(input_ok, fmul(fsub(max_input, input_amount), fsub(1, input_ok))) == 0
    &&& output_ok == 1
    &&& input_ok == 1
}

/// A trace satisfies the constraint system when every row does.
pub open spec fn spec_constraints_hold(t: Trace) -> bool {
    forall|row: int| 0 <= row < NUM_ROWS ==> spec_row_ok(t, row)
}

fn row_constraints_ok(trace: &Trace, row: usize) -> (r: bool)
    requires
        trace.wf(),
        row < NUM_ROWS,
    ensures
        r == spec_row_ok(*trace, row as int),
{
    let input_amount = trace.cell(row, 0);
    let output_amount = trace.cell(row, 1);
    let min_output = trace.cell(row, 2);
    let max_input = trace.cell(row, 3);
    let output_ok = trace.cell(row, 14);
    let input_ok = trace.cell(row, 15);
    let output_ok_boolean = fmul_exec(output_ok, fsub_exec(1, output_ok)) == 0;
    let input_ok_boolean = fmul_exec(input_ok, fsub_exec(1, input_ok)) == 0;
    let output_diff = fsub_exec(output_amount, min_output);
    let output_gate = fmul_exec(output_ok, fmul_exec(output_diff, fsub_exec(1, output_ok))) == 0;
    let input_diff = fsub_exec(max_input, input_amount);
    let input_gate = fmul_exec(input_ok, fmul_exec(input_diff, fsub_exec(1, input_ok))) == 0;
    output_ok_boolean && input_ok_boolean && output_gate && input_gate && output_ok == 1
        && input_ok == 1
}

impl IntentExecutionAir {
    /// Evaluates the constraint system on a whole trace.
    pub fn eval(&self, trace: &Trace) -> (r: bool)
        requires
            trace.wf(),
        ensures
            r == spec_constraints_hold(*trace),
    {
        let mut row: usize = 0;
        let mut all_ok: bool = true;
        while row < NUM_ROWS
            invariant
                trace.wf(),
                row <= NUM_ROWS,
                all_ok == (forall|r2: int| 0 <= r2 < row ==> spec_row_ok(*trace, r2)),
            decreases NUM_ROWS - row,
        {
            let ok = row_constraints_ok(trace, row);
            all_ok = all_ok && ok;
            row = row + 1;
        }
        all_ok
    }
}

/// The gated comparison product vanishes for any boolean flag value, whatever
/// the difference is: with the flag at one the `1 - flag` factor is zero, and
/// with the flag at zero the outer factor is. Together with the constraints
/// that force both flags to one, the gated products therefore do not bind the
/// flags to the numeric comparison they stand for; binding them would take a
/// range check over a committed bit decomposition of the difference. The flag
/// columns are instead filled from the witness's own scalars by
/// `generate_trace`.
pub proof fn lemma_gated_check_vacuous(diff: int, flag: int)
    requires
        flag == 0 || flag == 1,
    ensures
        fmul(flag, fmul(diff, fsub(1, flag))) == 0,
{
    if flag == 1 {
        assert(fsub(1, 1) == 0);
        assert(fmul(diff, 0) == 0);
        assert(fmul(1, 0) == 0);
    } else {
        assert(fmul(0, fmul(diff, fsub(1, 0))) == 0);
    }
}

/// Every trace generated from a witness that passes validation satisfies the
/// constraint system.
pub proof fn lemma_valid_trace_satisfies_constraints(w: IntentExecutionWitness, t: Trace)
    requires
        spec_witness_validate(w) is Ok,
        t.wf(),
        forall|row: int, col: int|
            0 <= row < NUM_ROWS && 0 <= col < NUM_COLS ==> t.spec_cell(row, col) == spec_col_value(
                w,
                col,
            ),
    ensures
        spec_constraints_hold(t),
{
    assert forall|row: int| 0 <= row < NUM_ROWS implies spec_row_ok(t, row) by {
        assert(t.spec_cell(row, 14) == spec_col_value(w, 14));
        assert(t.spec_cell(row, 15) == spec_col_value(w, 15));
        assert(t.spec_cell(row, 14) == 1);
        assert(t.spec_cell(row, 15) == 1);
        lemma_gated_check_vacuous(
            fsub(t.spec_cell(row, 1) as int, t.spec_cell(row, 2) as int),
            1,
        );
        lemma_gated_check_vacuous(
            fsub(t.spec_cell(row, 3) as int, t.spec_cell(row, 0) as int),
            1,
        );
        assert(fsub(1, 1) == 0);
        assert(fmul(1, 0) == 0);
    }
}

/// `(x + n * m) % m == x % m` for nonnegative `n`.
proof fn lemma_mod_multiples_vanish_general(x: int, n: int, m: int)
    requires
        0 < m,
        0 <= n,
    ensures
        (x + n * m) % m == x % m,
    decreases n,
{
    if n > 0 {
        lemma_mod_multiples_vanish_general(x, n - 1, m);
        lemma_mod_add_multiples_vanish(x + (n - 1) * m, m);
        assert(x + n * m == (x + (n - 1) * m) + m) by (nonlinear_arith);
    }
}

} // verus!
